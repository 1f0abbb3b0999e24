//! Epochs: the numbered states of a log.

use vstd::prelude::*;
use vstd::std_specs::convert::FromSpecImpl;
use vstd::std_specs::cmp::{PartialEqSpecImpl, PartialOrdSpecImpl};
use vstd::std_specs::ops::{AddSpecImpl, SubSpecImpl};
use std::cmp::Ordering;
use std::ops::{Add, Sub};
use crate::decimal::{decimal_digits, format_u64, parse_numeral, parse_u64};
use crate::error::{ErrorView, PlexiError};

verus! {

/// The number of a state of a log. Epochs are ordered as their numbers are.
#[derive(Clone, Copy, Debug)]
pub struct Epoch(u64);

/// The number of the first epoch of every log.
pub const FIRST_EPOCH: u64 = 1;

impl View for Epoch {
    type V = u64;

    closed spec fn view(&self) -> u64 {
        self.0
    }
}

/// The text of the root at epoch number `epoch` with the digest text
/// `digest`: the number, a slash, the digest.
pub open spec fn root_text(epoch: u64, digest: Seq<char>) -> Seq<char> {
    decimal_digits(epoch as nat) + seq!['/'] + digest
}

impl Epoch {
    /// Two epochs with one number are one epoch.
    pub broadcast proof fn lemma_view_injective(a: Epoch, b: Epoch)
        ensures
            #[trigger] a@ == #[trigger] b@ ==> a == b,
    {
    }

    /// The epoch with the given number.
    pub fn new(number: u64) -> (e: Epoch)
        ensures
            e@ == number,
    {
        Epoch(number)
    }

    /// The number of the epoch.
    pub fn number(&self) -> (n: u64)
        ensures
            n == self@,
    {
        self.0
    }

    /// Whether this is the first epoch of a log.
    pub fn is_first(&self) -> (b: bool)
        ensures
            b == (self@ == FIRST_EPOCH),
    {
        self.0 == FIRST_EPOCH
    }

    /// The text of the root that this epoch makes with a digest given as text.
    pub fn as_root_epoch(&self, digest: &str) -> (s: String)
        ensures
            s@ == root_text(self@, digest@),
    {
        proof {
            reveal_strlit("/");
            assert("/"@ =~= seq!['/']);
        }
        format_u64(self.0).concat("/").concat(digest)
    }

    /// The decimal numeral of the epoch's number.
    pub fn to_string(&self) -> (s: String)
        ensures
            s@ == decimal_digits(self@ as nat),
    {
        format_u64(self.0)
    }

    /// Reads an epoch from a decimal numeral. Fails with `BadParameter`,
    /// naming `epoch`, where `s` is no numeral or does not fit in 64 bits.
    pub fn parse(s: &str) -> (r: Result<Epoch, PlexiError>)
        ensures
            match parse_numeral(s@, u64::MAX as nat) {
                Some(n) => r is Ok && r->Ok_0@ == n,
                None => r is Err && r->Err_0@ == ErrorView::BadParameter("epoch"@),
            },
    {
        match parse_u64(s) {
            Some(n) => Ok(Epoch(n)),
            None => Err(PlexiError::bad_parameter("epoch")),
        }
    }

    /// The epoch before this one.
    pub fn previous(&self) -> (e: Epoch)
        requires
            self@ > 0,
        ensures
            e@ == self@ - 1,
    {
        Epoch(self.0 - 1)
    }
}

impl std::str::FromStr for Epoch {
    type Err = PlexiError;

    /// Reads an epoch from a decimal numeral, as `Epoch::parse` does: the
    /// epoch of that number where `s` is a numeral that fits in 64 bits, else
    /// `BadParameter`, naming `epoch`.
    fn from_str(s: &str) -> (r: Result<Epoch, PlexiError>)
        ensures
            match parse_numeral(s@, u64::MAX as nat) {
                Some(n) => r is Ok && r->Ok_0@ == n,
                None => r is Err && r->Err_0@ == ErrorView::BadParameter("epoch"@),
            },
    {
        Epoch::parse(s)
    }
}

impl From<&Epoch> for u64 {
    fn from(val: &Epoch) -> (n: u64) {
        val.0
    }
}

impl FromSpecImpl<&Epoch> for u64 {
    open spec fn obeys_from_spec() -> bool {
        true
    }

    open spec fn from_spec(val: &Epoch) -> u64 {
        val@
    }
}

impl From<Epoch> for u64 {
    fn from(val: Epoch) -> (n: u64) {
        val.0
    }
}

impl FromSpecImpl<Epoch> for u64 {
    open spec fn obeys_from_spec() -> bool {
        true
    }

    open spec fn from_spec(val: Epoch) -> u64 {
        val@
    }
}

impl From<u64> for Epoch {
    fn from(val: u64) -> (e: Epoch)
        ensures
            e@ == val,
    {
        Epoch(val)
    }
}

impl FromSpecImpl<u64> for Epoch {
    open spec fn obeys_from_spec() -> bool {
        true
    }

    closed spec fn from_spec(val: u64) -> Epoch {
        Epoch(val)
    }
}

impl PartialEq<u64> for Epoch {
    fn eq(&self, other: &u64) -> (b: bool) {
        self.0 == *other
    }
}

impl PartialEqSpecImpl<u64> for Epoch {
    open spec fn obeys_eq_spec() -> bool {
        true
    }

    open spec fn eq_spec(&self, other: &u64) -> bool {
        self@ == *other
    }
}

impl PartialEq<Epoch> for u64 {
    fn eq(&self, other: &Epoch) -> (b: bool) {
        *self == other.0
    }
}

impl PartialEqSpecImpl<Epoch> for u64 {
    open spec fn obeys_eq_spec() -> bool {
        true
    }

    open spec fn eq_spec(&self, other: &Epoch) -> bool {
        *self == other@
    }
}

impl PartialEq<Epoch> for Epoch {
    fn eq(&self, other: &Epoch) -> (b: bool) {
        self.0 == other.0
    }
}

impl PartialEqSpecImpl<Epoch> for Epoch {
    open spec fn obeys_eq_spec() -> bool {
        true
    }

    open spec fn eq_spec(&self, other: &Epoch) -> bool {
        self@ == other@
    }
}

impl PartialOrd<Epoch> for Epoch {
    fn partial_cmp(&self, other: &Epoch) -> (r: Option<Ordering>) {
        if self.0 < other.0 {
            Some(Ordering::Less)
        } else if self.0 == other.0 {
            Some(Ordering::Equal)
        } else {
            Some(Ordering::Greater)
        }
    }
}

impl PartialOrdSpecImpl<Epoch> for Epoch {
    open spec fn obeys_partial_cmp_spec() -> bool {
        true
    }

    open spec fn partial_cmp_spec(&self, other: &Epoch) -> Option<Ordering> {
        if self@ < other@ {
            Some(Ordering::Less)
        } else if self@ == other@ {
            Some(Ordering::Equal)
        } else {
            Some(Ordering::Greater)
        }
    }
}

impl Add<u64> for Epoch {
    type Output = Epoch;

    fn add(self, rhs: u64) -> (e: Epoch)
        ensures
            e@ == self@ + rhs,
    {
        Epoch(self.0 + rhs)
    }
}

impl AddSpecImpl<u64> for Epoch {
    open spec fn obeys_add_spec() -> bool {
        true
    }

    open spec fn add_req(self, rhs: u64) -> bool {
        self@ + rhs <= u64::MAX
    }

    closed spec fn add_spec(self, rhs: u64) -> Epoch {
        Epoch((self.0 + rhs) as u64)
    }
}

impl Sub<u64> for Epoch {
    type Output = Epoch;

    fn sub(self, rhs: u64) -> (e: Epoch)
        ensures
            e@ == self@ - rhs,
    {
        Epoch(self.0 - rhs)
    }
}

impl SubSpecImpl<u64> for Epoch {
    open spec fn obeys_sub_spec() -> bool {
        true
    }

    open spec fn sub_req(self, rhs: u64) -> bool {
        self@ >= rhs
    }

    closed spec fn sub_spec(self, rhs: u64) -> Epoch {
        Epoch((self.0 - rhs) as u64)
    }
}

impl Add<Epoch> for Epoch {
    type Output = Epoch;

    fn add(self, rhs: Epoch) -> (e: Epoch)
        ensures
            e@ == self@ + rhs@,
    {
        Epoch(self.0 + rhs.0)
    }
}

impl AddSpecImpl<Epoch> for Epoch {
    open spec fn obeys_add_spec() -> bool {
        true
    }

    open spec fn add_req(self, rhs: Epoch) -> bool {
        self@ + rhs@ <= u64::MAX
    }

    closed spec fn add_spec(self, rhs: Epoch) -> Epoch {
        Epoch((self.0 + rhs.0) as u64)
    }
}

impl Sub<Epoch> for Epoch {
    type Output = Epoch;

    fn sub(self, rhs: Epoch) -> (e: Epoch)
        ensures
            e@ == self@ - rhs@,
    {
        Epoch(self.0 - rhs.0)
    }
}

impl SubSpecImpl<Epoch> for Epoch {
    open spec fn obeys_sub_spec() -> bool {
        true
    }

    open spec fn sub_req(self, rhs: Epoch) -> bool {
        self@ >= rhs@
    }

    closed spec fn sub_spec(self, rhs: Epoch) -> Epoch {
        Epoch((self.0 - rhs.0) as u64)
    }
}

} // verus!
