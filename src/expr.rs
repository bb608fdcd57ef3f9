//! Arithmetic expressions over the physical parameters of a filter.
//!
//! A coefficient formula is a tree whose leaves are the filter's inputs
//! (cutoff frequency, quality factor, gain in decibels, sample rate) and
//! small constants. Each node names one floating-point operation, so a
//! tree fixes not only the value but the exact order of evaluation.
use vstd::prelude::*;

verus! {

/// One node of a coefficient formula.
#[derive(Debug)]
pub enum Expr {
    /// A small non-negative integer constant.
    Num(u32),
    /// The circle constant.
    Pi,
    /// Cutoff or center frequency in Hz.
    Fc,
    /// Quality factor.
    Q,
    /// Signed gain in decibels.
    GainDb,
    /// Sample rate in Hz.
    Fs,
    Neg(Box<Expr>),
    Abs(Box<Expr>),
    Sqrt(Box<Expr>),
    Tan(Box<Expr>),
    /// The first operand raised to the power of the second.
    Pow(Box<Expr>, Box<Expr>),
    Add(Box<Expr>, Box<Expr>),
    Sub(Box<Expr>, Box<Expr>),
    Mul(Box<Expr>, Box<Expr>),
    Div(Box<Expr>, Box<Expr>),
}

pub open spec fn num(n: u32) -> Expr {
    Expr::Num(n)
}

pub open spec fn neg(a: Expr) -> Expr {
    Expr::Neg(Box::new(a))
}

pub open spec fn abs(a: Expr) -> Expr {
    Expr::Abs(Box::new(a))
}

pub open spec fn sqrt(a: Expr) -> Expr {
    Expr::Sqrt(Box::new(a))
}

pub open spec fn tan(a: Expr) -> Expr {
    Expr::Tan(Box::new(a))
}

pub open spec fn pow(a: Expr, b: Expr) -> Expr {
    Expr::Pow(Box::new(a), Box::new(b))
}

pub open spec fn plus(a: Expr, b: Expr) -> Expr {
    Expr::Add(Box::new(a), Box::new(b))
}

pub open spec fn minus(a: Expr, b: Expr) -> Expr {
    Expr::Sub(Box::new(a), Box::new(b))
}

pub open spec fn times(a: Expr, b: Expr) -> Expr {
    Expr::Mul(Box::new(a), Box::new(b))
}

pub open spec fn over(a: Expr, b: Expr) -> Expr {
    Expr::Div(Box::new(a), Box::new(b))
}

/// Whether the gain enters the expression only through its magnitude.
pub open spec fn gain_only_by_magnitude(e: Expr) -> bool
    decreases e,
{
    match e {
        Expr::GainDb => false,
        Expr::Abs(a) => *a == Expr::GainDb || gain_only_by_magnitude(*a),
        Expr::Neg(a) => gain_only_by_magnitude(*a),
        Expr::Sqrt(a) => gain_only_by_magnitude(*a),
        Expr::Tan(a) => gain_only_by_magnitude(*a),
        Expr::Pow(a, b) => gain_only_by_magnitude(*a) && gain_only_by_magnitude(*b),
        Expr::Add(a, b) => gain_only_by_magnitude(*a) && gain_only_by_magnitude(*b),
        Expr::Sub(a, b) => gain_only_by_magnitude(*a) && gain_only_by_magnitude(*b),
        Expr::Mul(a, b) => gain_only_by_magnitude(*a) && gain_only_by_magnitude(*b),
        Expr::Div(a, b) => gain_only_by_magnitude(*a) && gain_only_by_magnitude(*b),
        _ => true,
    }
}

impl Expr {
    /// A structurally equal copy of the tree.
    pub fn duplicate(&self) -> (r: Expr)
        ensures
            r == *self,
        decreases self,
    {
        match self {
            Expr::Num(n) => Expr::Num(*n),
            Expr::Pi => Expr::Pi,
            Expr::Fc => Expr::Fc,
            Expr::Q => Expr::Q,
            Expr::GainDb => Expr::GainDb,
            Expr::Fs => Expr::Fs,
            Expr::Neg(a) => Expr::Neg(Box::new(a.duplicate())),
            Expr::Abs(a) => Expr::Abs(Box::new(a.duplicate())),
            Expr::Sqrt(a) => Expr::Sqrt(Box::new(a.duplicate())),
            Expr::Tan(a) => Expr::Tan(Box::new(a.duplicate())),
            Expr::Pow(a, b) => Expr::Pow(Box::new(a.duplicate()), Box::new(b.duplicate())),
            Expr::Add(a, b) => Expr::Add(Box::new(a.duplicate()), Box::new(b.duplicate())),
            Expr::Sub(a, b) => Expr::Sub(Box::new(a.duplicate()), Box::new(b.duplicate())),
            Expr::Mul(a, b) => Expr::Mul(Box::new(a.duplicate()), Box::new(b.duplicate())),
            Expr::Div(a, b) => Expr::Div(Box::new(a.duplicate()), Box::new(b.duplicate())),
        }
    }

    pub fn negated(self) -> (r: Expr)
        ensures
            r == neg(self),
    {
        Expr::Neg(Box::new(self))
    }

    pub fn magnitude(self) -> (r: Expr)
        ensures
            r == abs(self),
    {
        Expr::Abs(Box::new(self))
    }

    pub fn square_root(self) -> (r: Expr)
        ensures
            r == sqrt(self),
    {
        Expr::Sqrt(Box::new(self))
    }

    pub fn tangent(self) -> (r: Expr)
        ensures
            r == tan(self),
    {
        Expr::Tan(Box::new(self))
    }

    pub fn raised_to(self, b: Expr) -> (r: Expr)
        ensures
            r == pow(self, b),
    {
        Expr::Pow(Box::new(self), Box::new(b))
    }

    pub fn plus(self, b: Expr) -> (r: Expr)
        ensures
            r == plus(self, b),
    {
        Expr::Add(Box::new(self), Box::new(b))
    }

    pub fn minus(self, b: Expr) -> (r: Expr)
        ensures
            r == minus(self, b),
    {
        Expr::Sub(Box::new(self), Box::new(b))
    }

    pub fn times(self, b: Expr) -> (r: Expr)
        ensures
            r == times(self, b),
    {
        Expr::Mul(Box::new(self), Box::new(b))
    }

    pub fn over(self, b: Expr) -> (r: Expr)
        ensures
            r == over(self, b),
    {
        Expr::Div(Box::new(self), Box::new(b))
    }
}

} // verus!
