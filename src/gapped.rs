//! Symbols of an alphabet extended with a gap.
use vstd::prelude::*;

use crate::complement::Complement;
use crate::convert::{spec_parse, spec_parse_char, FromChar, IntoChar};
use crate::errors::SeqError;
use crate::matcher::Match;

verus! {

/// The byte of a gap.
pub const GAP_BYTE: u8 = 45;

/// A symbol of an alphabet, or a gap in an alignment.
#[derive(Debug, Clone, Copy, Hash, PartialEq, PartialOrd, Eq, Ord, Structural)]
pub enum Gapped<T> {
    Gap,
    Base(T),
}

impl<T> Gapped<T> {
    /// Is this a symbol rather than a gap?
    pub fn is_base(&self) -> (r: bool)
        ensures
            r == self is Base,
    {
        match self {
            Gapped::Base(_) => true,
            Gapped::Gap => false,
        }
    }

    /// Is this a gap?
    pub fn is_gap(&self) -> (r: bool)
        ensures
            r == self is Gap,
    {
        !self.is_base()
    }

    /// Borrows the symbol, if any.
    pub fn as_ref(&self) -> (r: Gapped<&T>)
        ensures
            match *self {
                Gapped::Base(x) => r == Gapped::Base(&x),
                Gapped::Gap => r is Gap,
            },
    {
        match self {
            Gapped::Base(x) => Gapped::Base(x),
            Gapped::Gap => Gapped::Gap,
        }
    }

    /// Borrows the symbol mutably, if any.
    pub fn as_mut(&mut self) -> (r: Gapped<&mut T>)
        ensures
            match *old(self) {
                Gapped::Base(x) => r matches Gapped::Base(y) && *y == x,
                Gapped::Gap => r is Gap,
            },
    {
        match self {
            Gapped::Base(x) => Gapped::Base(x),
            Gapped::Gap => Gapped::Gap,
        }
    }

    /// The symbol; only to be called on a symbol, never on a gap.
    pub fn expect(self, msg: &str) -> (r: T)
        requires
            self is Base,
        ensures
            self == Gapped::Base(r),
    {
        match self {
            Gapped::Base(val) => val,
            Gapped::Gap => unreached(),
        }
    }

    /// The symbol; only to be called on a symbol, never on a gap.
    pub fn unwrap(self) -> (r: T)
        requires
            self is Base,
        ensures
            self == Gapped::Base(r),
    {
        match self {
            Gapped::Base(val) => val,
            Gapped::Gap => unreached(),
        }
    }

    /// The symbol, or `def` for a gap.
    pub fn unwrap_or(self, def: T) -> (r: T)
        ensures
            match self {
                Gapped::Base(x) => r == x,
                Gapped::Gap => r == def,
            },
    {
        match self {
            Gapped::Base(x) => x,
            Gapped::Gap => def,
        }
    }

    /// The symbol, or what `f` makes for a gap.
    pub fn unwrap_or_else<F: FnOnce() -> T>(self, f: F) -> (r: T)
        requires
            self is Gap ==> f.requires(()),
        ensures
            match self {
                Gapped::Base(x) => r == x,
                Gapped::Gap => f.ensures((), r),
            },
    {
        match self {
            Gapped::Base(x) => x,
            Gapped::Gap => f(),
        }
    }

    /// Applies `f` to the symbol; a gap stays a gap.
    pub fn map<U, F: FnOnce(T) -> U>(self, f: F) -> (r: Gapped<U>)
        requires
            match self {
                Gapped::Base(x) => f.requires((x,)),
                Gapped::Gap => true,
            },
        ensures
            match self {
                Gapped::Base(x) => match r {
                    Gapped::Base(y) => f.ensures((x,), y),
                    Gapped::Gap => false,
                },
                Gapped::Gap => r is Gap,
            },
    {
        match self {
            Gapped::Base(x) => Gapped::Base(f(x)),
            Gapped::Gap => Gapped::Gap,
        }
    }

    /// Applies `f` to the symbol, or gives `default` for a gap.
    pub fn map_or<U, F: FnOnce(T) -> U>(self, default: U, f: F) -> (r: U)
        requires
            match self {
                Gapped::Base(x) => f.requires((x,)),
                Gapped::Gap => true,
            },
        ensures
            match self {
                Gapped::Base(x) => f.ensures((x,), r),
                Gapped::Gap => r == default,
            },
    {
        match self {
            Gapped::Base(t) => f(t),
            Gapped::Gap => default,
        }
    }

    /// Applies `f` to the symbol, or `default` for a gap.
    pub fn map_or_else<U, D: FnOnce() -> U, F: FnOnce(T) -> U>(self, default: D, f: F) -> (r: U)
        requires
            match self {
                Gapped::Base(x) => f.requires((x,)),
                Gapped::Gap => default.requires(()),
            },
        ensures
            match self {
                Gapped::Base(x) => f.ensures((x,), r),
                Gapped::Gap => default.ensures((), r),
            },
    {
        match self {
            Gapped::Base(t) => f(t),
            Gapped::Gap => default(),
        }
    }

    /// Applies `f`, which may itself give a gap, to the symbol; a gap stays a gap.
    pub fn flat_map<U, F: FnOnce(T) -> Gapped<U>>(self, f: F) -> (r: Gapped<U>)
        requires
            match self {
                Gapped::Base(x) => f.requires((x,)),
                Gapped::Gap => true,
            },
        ensures
            match self {
                Gapped::Base(x) => f.ensures((x,), r),
                Gapped::Gap => r is Gap,
            },
    {
        self.map_or(Gapped::Gap, f)
    }

    /// The symbol, or the error `err` for a gap.
    pub fn base_or<E>(self, err: E) -> (r: Result<T, E>)
        ensures
            match self {
                Gapped::Base(x) => r == Ok::<T, E>(x),
                Gapped::Gap => r == Err::<T, E>(err),
            },
    {
        match self {
            Gapped::Base(v) => Ok(v),
            Gapped::Gap => Err(err),
        }
    }

    /// The symbol, or the error that `err` makes for a gap.
    pub fn base_or_else<E, F: FnOnce() -> E>(self, err: F) -> (r: Result<T, E>)
        requires
            self is Gap ==> err.requires(()),
        ensures
            match self {
                Gapped::Base(x) => r == Ok::<T, E>(x),
                Gapped::Gap => match r {
                    Ok(_) => false,
                    Err(e) => err.ensures((), e),
                },
            },
    {
        match self {
            Gapped::Base(v) => Ok(v),
            Gapped::Gap => Err(err()),
        }
    }

    /// The symbol, or the error `err` for a gap.
    pub fn ok_or<E>(self, err: E) -> (r: Result<T, E>)
        ensures
            match self {
                Gapped::Base(x) => r == Ok::<T, E>(x),
                Gapped::Gap => r == Err::<T, E>(err),
            },
    {
        self.base_or(err)
    }

    /// The symbol, or the error that `err` makes for a gap.
    pub fn ok_or_else<E, F: FnOnce() -> E>(self, err: F) -> (r: Result<T, E>)
        requires
            self is Gap ==> err.requires(()),
        ensures
            match self {
                Gapped::Base(x) => r == Ok::<T, E>(x),
                Gapped::Gap => match r {
                    Ok(_) => false,
                    Err(e) => err.ensures((), e),
                },
            },
    {
        self.base_or_else(err)
    }

    /// `Some` symbol, or `None` for a gap.
    pub fn into_option(self) -> (r: Option<T>)
        ensures
            match self {
                Gapped::Base(x) => r == Some(x),
                Gapped::Gap => r is None,
            },
    {
        match self {
            Gapped::Base(v) => Some(v),
            Gapped::Gap => None,
        }
    }

    /// A symbol for `Some`, a gap for `None`.
    pub fn from_option(t: Option<T>) -> (r: Gapped<T>)
        ensures
            match t {
                Some(x) => r == Gapped::Base(x),
                None => r is Gap,
            },
    {
        match t {
            Some(base) => Gapped::Base(base),
            None => Gapped::Gap,
        }
    }
}

impl<T> Default for Gapped<T> {
    /// A gap.
    fn default() -> (r: Gapped<T>)
        ensures
            r is Gap,
    {
        Gapped::Gap
    }
}

impl<T: IntoChar> Gapped<T> {
    /// The byte that writes a gap or a symbol.
    pub open spec fn spec_byte(&self) -> u8 {
        match self {
            Gapped::Base(x) => x.spec_byte(),
            Gapped::Gap => GAP_BYTE,
        }
    }

    /// The letter of the symbol, or `-` for a gap.
    pub fn into_byte(&self) -> (r: u8)
        ensures
            r == self.spec_byte(),
    {
        match self {
            Gapped::Base(x) => x.into_byte(),
            Gapped::Gap => GAP_BYTE,
        }
    }

    /// The letter of the symbol, or `-` for a gap, as a character.
    pub fn into_char(&self) -> (r: char)
        ensures
            r == self.spec_byte() as char,
    {
        self.into_byte() as char
    }
}

impl<T: FromChar> Gapped<T> {
    /// Reads `-` as a gap and any other byte as a symbol of the alphabet.
    pub fn from_byte(b: u8) -> (r: Result<Gapped<T>, SeqError>)
        ensures
            b == GAP_BYTE ==> r == Ok::<Gapped<T>, SeqError>(Gapped::Gap),
            b != GAP_BYTE ==> r == match spec_parse::<T>(b) {
                Ok(x) => Ok(Gapped::Base(x)),
                Err(e) => Err(e),
            },
    {
        if b == GAP_BYTE {
            Ok(Gapped::Gap)
        } else {
            match T::from_byte(b) {
                Ok(x) => Ok(Gapped::Base(x)),
                Err(e) => Err(e),
            }
        }
    }

    /// Reads `-` as a gap and any other character as a symbol of the alphabet.
    pub fn from_char(c: char) -> (r: Result<Gapped<T>, SeqError>)
        ensures
            c == '-' ==> r == Ok::<Gapped<T>, SeqError>(Gapped::Gap),
            c != '-' ==> r == match spec_parse_char::<T>(c) {
                Ok(x) => Ok(Gapped::Base(x)),
                Err(e) => Err(e),
            },
    {
        if c == '-' {
            Ok(Gapped::Gap)
        } else {
            match T::from_char(c) {
                Ok(x) => Ok(Gapped::Base(x)),
                Err(e) => Err(e),
            }
        }
    }
}

impl<T: Complement> Complement for Gapped<T> {
    open spec fn spec_complement(&self) -> Gapped<T> {
        match self {
            Gapped::Base(x) => Gapped::Base(x.spec_complement()),
            Gapped::Gap => Gapped::Gap,
        }
    }

    fn complement(&self) -> (r: Gapped<T>) {
        match self {
            Gapped::Base(x) => Gapped::Base(x.complement()),
            Gapped::Gap => Gapped::Gap,
        }
    }
}

impl<T: Match<T>> Match<Gapped<T>> for Gapped<T> {
    /// Gaps match gaps, and symbols match as in their alphabet.
    open spec fn spec_matches(&self, other: &Gapped<T>) -> bool {
        match (self, other) {
            (Gapped::Base(x), Gapped::Base(y)) => x.spec_matches(y),
            (Gapped::Gap, Gapped::Gap) => true,
            _ => false,
        }
    }

    fn matches(&self, other: &Gapped<T>) -> (r: bool) {
        match (self, other) {
            (Gapped::Base(x), Gapped::Base(y)) => x.matches(y),
            (Gapped::Gap, Gapped::Gap) => true,
            _ => false,
        }
    }
}

} // verus!
