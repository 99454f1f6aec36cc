//! Amino-acid symbols extended with translation stops.
use vstd::prelude::*;

use crate::convert::{spec_parse, spec_parse_char, FromChar, IntoChar};
use crate::errors::SeqError;
use crate::matcher::{Match, RedundantAlphabet};

verus! {

/// The byte of a stop.
pub const STOP_BYTE: u8 = 42;

/// The outcome of translating a codon: a residue, a codon that is a stop or a
/// residue depending on its context, or a stop.
#[derive(Debug, Clone, Copy, Hash, PartialEq, PartialOrd, Eq, Ord, Structural)]
pub enum Stopped<T> {
    Res(T),
    StopOr(T),
    Stop,
}

impl<T> Stopped<T> {
    /// Can this be read as a residue? True for `Res` and `StopOr`.
    pub fn is_residue(&self) -> (r: bool)
        ensures
            r == !(self is Stop),
    {
        match self {
            Stopped::Stop => false,
            _ => true,
        }
    }

    /// Can this be read as a stop? True for `StopOr` and `Stop`.
    pub fn is_stop(&self) -> (r: bool)
        ensures
            r == !(self is Res),
    {
        match self {
            Stopped::Res(_) => false,
            _ => true,
        }
    }

    /// Borrows the residue, if any.
    pub fn as_ref(&self) -> (r: Stopped<&T>)
        ensures
            match *self {
                Stopped::Res(x) => r == Stopped::Res(&x),
                Stopped::StopOr(x) => r == Stopped::StopOr(&x),
                Stopped::Stop => r is Stop,
            },
    {
        match self {
            Stopped::Res(x) => Stopped::Res(x),
            Stopped::StopOr(x) => Stopped::StopOr(x),
            Stopped::Stop => Stopped::Stop,
        }
    }

    /// Borrows the residue mutably, if any.
    pub fn as_mut(&mut self) -> (r: Stopped<&mut T>)
        ensures
            match *old(self) {
                Stopped::Res(x) => r matches Stopped::Res(y) && *y == x,
                Stopped::StopOr(x) => r matches Stopped::StopOr(y) && *y == x,
                Stopped::Stop => r is Stop,
            },
    {
        match self {
            Stopped::Res(x) => Stopped::Res(x),
            Stopped::StopOr(x) => Stopped::StopOr(x),
            Stopped::Stop => Stopped::Stop,
        }
    }

    /// The residue; only to be called where there is one.
    pub fn expect(self, msg: &str) -> (r: T)
        requires
            !(self is Stop),
        ensures
            self == Stopped::Res(r) || self == Stopped::StopOr(r),
    {
        match self {
            Stopped::Res(x) => x,
            Stopped::StopOr(x) => x,
            Stopped::Stop => unreached(),
        }
    }

    /// The residue; only to be called where there is one.
    pub fn unwrap(self) -> (r: T)
        requires
            !(self is Stop),
        ensures
            self == Stopped::Res(r) || self == Stopped::StopOr(r),
    {
        match self {
            Stopped::Res(x) => x,
            Stopped::StopOr(x) => x,
            Stopped::Stop => unreached(),
        }
    }

    /// The residue, or `def` for a stop.
    pub fn unwrap_or(self, def: T) -> (r: T)
        ensures
            match self {
                Stopped::Res(x) => r == x,
                Stopped::StopOr(x) => r == x,
                Stopped::Stop => r == def,
            },
    {
        match self {
            Stopped::Res(x) => x,
            Stopped::StopOr(x) => x,
            Stopped::Stop => def,
        }
    }

    /// The residue, or what `f` makes for a stop.
    pub fn unwrap_or_else<F: FnOnce() -> T>(self, f: F) -> (r: T)
        requires
            self is Stop ==> f.requires(()),
        ensures
            match self {
                Stopped::Res(x) => r == x,
                Stopped::StopOr(x) => r == x,
                Stopped::Stop => f.ensures((), r),
            },
    {
        match self {
            Stopped::Res(x) => x,
            Stopped::StopOr(x) => x,
            Stopped::Stop => f(),
        }
    }

    /// Applies `f` to the residue, keeping the variant; a stop stays a stop.
    pub fn map<U, F: FnOnce(T) -> U>(self, f: F) -> (r: Stopped<U>)
        requires
            match self {
                Stopped::Res(x) => f.requires((x,)),
                Stopped::StopOr(x) => f.requires((x,)),
                Stopped::Stop => true,
            },
        ensures
            match self {
                Stopped::Res(x) => match r {
                    Stopped::Res(y) => f.ensures((x,), y),
                    _ => false,
                },
                Stopped::StopOr(x) => match r {
                    Stopped::StopOr(y) => f.ensures((x,), y),
                    _ => false,
                },
                Stopped::Stop => r is Stop,
            },
    {
        match self {
            Stopped::Res(x) => Stopped::Res(f(x)),
            Stopped::StopOr(x) => Stopped::StopOr(f(x)),
            Stopped::Stop => Stopped::Stop,
        }
    }

    /// Applies `f` to the residue, or gives `default` for a stop.
    pub fn map_or<U, F: FnOnce(T) -> U>(self, default: U, f: F) -> (r: U)
        requires
            match self {
                Stopped::Res(x) => f.requires((x,)),
                Stopped::StopOr(x) => f.requires((x,)),
                Stopped::Stop => true,
            },
        ensures
            match self {
                Stopped::Res(x) => f.ensures((x,), r),
                Stopped::StopOr(x) => f.ensures((x,), r),
                Stopped::Stop => r == default,
            },
    {
        match self {
            Stopped::Res(x) => f(x),
            Stopped::StopOr(x) => f(x),
            Stopped::Stop => default,
        }
    }

    /// Applies `f` to the residue, or `default` for a stop.
    pub fn map_or_else<U, D: FnOnce() -> U, F: FnOnce(T) -> U>(self, default: D, f: F) -> (r: U)
        requires
            match self {
                Stopped::Res(x) => f.requires((x,)),
                Stopped::StopOr(x) => f.requires((x,)),
                Stopped::Stop => default.requires(()),
            },
        ensures
            match self {
                Stopped::Res(x) => f.ensures((x,), r),
                Stopped::StopOr(x) => f.ensures((x,), r),
                Stopped::Stop => default.ensures((), r),
            },
    {
        match self {
            Stopped::Res(x) => f(x),
            Stopped::StopOr(x) => f(x),
            Stopped::Stop => default(),
        }
    }

    /// Applies `f`, which may itself give a stop, to the residue.
    pub fn flat_map<U, F: FnOnce(T) -> Stopped<U>>(self, f: F) -> (r: Stopped<U>)
        requires
            match self {
                Stopped::Res(x) => f.requires((x,)),
                Stopped::StopOr(x) => f.requires((x,)),
                Stopped::Stop => true,
            },
        ensures
            match self {
                Stopped::Res(x) => f.ensures((x,), r),
                Stopped::StopOr(x) => f.ensures((x,), r),
                Stopped::Stop => r is Stop,
            },
    {
        self.map_or(Stopped::Stop, f)
    }

    /// The residue, or the error `err` for a stop.
    pub fn res_or<E>(self, err: E) -> (r: Result<T, E>)
        ensures
            match self {
                Stopped::Res(x) => r == Ok::<T, E>(x),
                Stopped::StopOr(x) => r == Ok::<T, E>(x),
                Stopped::Stop => r == Err::<T, E>(err),
            },
    {
        match self {
            Stopped::Res(x) => Ok(x),
            Stopped::StopOr(x) => Ok(x),
            Stopped::Stop => Err(err),
        }
    }

    /// The residue, or the error that `err` makes for a stop.
    pub fn res_or_else<E, F: FnOnce() -> E>(self, err: F) -> (r: Result<T, E>)
        requires
            self is Stop ==> err.requires(()),
        ensures
            match self {
                Stopped::Res(x) => r == Ok::<T, E>(x),
                Stopped::StopOr(x) => r == Ok::<T, E>(x),
                Stopped::Stop => match r {
                    Ok(_) => false,
                    Err(e) => err.ensures((), e),
                },
            },
    {
        match self {
            Stopped::Res(x) => Ok(x),
            Stopped::StopOr(x) => Ok(x),
            Stopped::Stop => Err(err()),
        }
    }

    /// `Some` residue, or `None` for a stop.
    pub fn into_option(self) -> (r: Option<T>)
        ensures
            match self {
                Stopped::Res(x) => r == Some(x),
                Stopped::StopOr(x) => r == Some(x),
                Stopped::Stop => r is None,
            },
    {
        match self {
            Stopped::Res(x) => Some(x),
            Stopped::StopOr(x) => Some(x),
            Stopped::Stop => None,
        }
    }

    /// A residue for `Some`, a stop for `None`.
    pub fn from_option(t: Option<T>) -> (r: Stopped<T>)
        ensures
            match t {
                Some(x) => r == Stopped::Res(x),
                None => r is Stop,
            },
    {
        match t {
            Some(x) => Stopped::Res(x),
            None => Stopped::Stop,
        }
    }
}

impl<T> Default for Stopped<T> {
    /// A stop.
    fn default() -> (r: Stopped<T>)
        ensures
            r is Stop,
    {
        Stopped::Stop
    }
}

impl<T: IntoChar> Stopped<T> {
    /// The byte that writes a residue or a stop; a context-dependent stop is
    /// written as its residue.
    pub open spec fn spec_byte(&self) -> u8 {
        match self {
            Stopped::Res(x) => x.spec_byte(),
            Stopped::StopOr(x) => x.spec_byte(),
            Stopped::Stop => STOP_BYTE,
        }
    }

    /// The letter of the residue, or `*` for a stop.
    pub fn into_byte(&self) -> (r: u8)
        ensures
            r == self.spec_byte(),
    {
        match self {
            Stopped::Res(x) => x.into_byte(),
            Stopped::StopOr(x) => x.into_byte(),
            Stopped::Stop => STOP_BYTE,
        }
    }

    /// The letter of the residue, or `*` for a stop, as a character.
    pub fn into_char(&self) -> (r: char)
        ensures
            r == self.spec_byte() as char,
    {
        self.into_byte() as char
    }
}

impl<T: FromChar> Stopped<T> {
    /// Reads `*` as a stop and any other byte as a residue.
    pub fn from_byte(b: u8) -> (r: Result<Stopped<T>, SeqError>)
        ensures
            b == STOP_BYTE ==> r == Ok::<Stopped<T>, SeqError>(Stopped::Stop),
            b != STOP_BYTE ==> r == match spec_parse::<T>(b) {
                Ok(x) => Ok(Stopped::Res(x)),
                Err(e) => Err(e),
            },
    {
        if b == STOP_BYTE {
            Ok(Stopped::Stop)
        } else {
            match T::from_byte(b) {
                Ok(x) => Ok(Stopped::Res(x)),
                Err(e) => Err(e),
            }
        }
    }

    /// Reads `*` as a stop and any other character as a residue.
    pub fn from_char(c: char) -> (r: Result<Stopped<T>, SeqError>)
        ensures
            c == '*' ==> r == Ok::<Stopped<T>, SeqError>(Stopped::Stop),
            c != '*' ==> r == match spec_parse_char::<T>(c) {
                Ok(x) => Ok(Stopped::Res(x)),
                Err(e) => Err(e),
            },
    {
        if c == '*' {
            Ok(Stopped::Stop)
        } else {
            match T::from_char(c) {
                Ok(x) => Ok(Stopped::Res(x)),
                Err(e) => Err(e),
            }
        }
    }
}

impl<T: Match<T>> Match<Stopped<T>> for Stopped<T> {
    /// A stop matches only what can be a stop; residues match as in their
    /// alphabet; a context-dependent stop matches both ways.
    open spec fn spec_matches(&self, other: &Stopped<T>) -> bool {
        match (self, other) {
            (Stopped::Stop, Stopped::Res(_)) => false,
            (Stopped::Res(_), Stopped::Stop) => false,
            (Stopped::Stop, _) => true,
            (_, Stopped::Stop) => true,
            (Stopped::StopOr(_), Stopped::StopOr(_)) => true,
            (Stopped::Res(x), Stopped::Res(y)) => x.spec_matches(y),
            (Stopped::Res(x), Stopped::StopOr(y)) => x.spec_matches(y),
            (Stopped::StopOr(x), Stopped::Res(y)) => x.spec_matches(y),
        }
    }

    fn matches(&self, other: &Stopped<T>) -> (r: bool) {
        match (self, other) {
            (Stopped::Stop, Stopped::Res(_)) => false,
            (Stopped::Res(_), Stopped::Stop) => false,
            (Stopped::Stop, _) => true,
            (_, Stopped::Stop) => true,
            (Stopped::StopOr(_), Stopped::StopOr(_)) => true,
            (Stopped::Res(x), Stopped::Res(y)) => x.matches(y),
            (Stopped::Res(x), Stopped::StopOr(y)) => x.matches(y),
            (Stopped::StopOr(x), Stopped::Res(y)) => x.matches(y),
        }
    }
}

impl<T: RedundantAlphabet + Copy> Stopped<T> {
    /// What two outcomes merge into: a stop where both are stops, a residue
    /// where neither can stop, and otherwise a stop or the union of the
    /// residues.
    pub open spec fn spec_merge(&self, other: &Stopped<T>) -> Stopped<T> {
        match (*self, *other) {
            (Stopped::Stop, Stopped::Stop) => Stopped::Stop,
            (Stopped::Stop, Stopped::Res(a)) => Stopped::StopOr(a),
            (Stopped::Stop, Stopped::StopOr(a)) => Stopped::StopOr(a),
            (Stopped::Res(a), Stopped::Stop) => Stopped::StopOr(a),
            (Stopped::StopOr(a), Stopped::Stop) => Stopped::StopOr(a),
            (Stopped::Res(a), Stopped::Res(b)) => Stopped::Res(a.spec_union(&b)),
            (Stopped::Res(a), Stopped::StopOr(b)) => Stopped::StopOr(a.spec_union(&b)),
            (Stopped::StopOr(a), Stopped::Res(b)) => Stopped::StopOr(a.spec_union(&b)),
            (Stopped::StopOr(a), Stopped::StopOr(b)) => Stopped::StopOr(a.spec_union(&b)),
        }
    }

    /// Merges two outcomes that a position may have: a stop where both are
    /// stops, a residue where neither can stop, and otherwise a stop or the
    /// union of the residues.
    pub fn merge(&self, other: &Stopped<T>) -> (r: Stopped<T>)
        ensures
            r == self.spec_merge(other),
    {
        match (*self, *other) {
            (Stopped::Stop, Stopped::Stop) => Stopped::Stop,
            (Stopped::Stop, Stopped::Res(a)) => Stopped::StopOr(a),
            (Stopped::Stop, Stopped::StopOr(a)) => Stopped::StopOr(a),
            (Stopped::Res(a), Stopped::Stop) => Stopped::StopOr(a),
            (Stopped::StopOr(a), Stopped::Stop) => Stopped::StopOr(a),
            (Stopped::Res(a), Stopped::Res(b)) => Stopped::Res(a.union(&b)),
            (Stopped::Res(a), Stopped::StopOr(b)) => Stopped::StopOr(a.union(&b)),
            (Stopped::StopOr(a), Stopped::Res(b)) => Stopped::StopOr(a.union(&b)),
            (Stopped::StopOr(a), Stopped::StopOr(b)) => Stopped::StopOr(a.union(&b)),
        }
    }
}

} // verus!
