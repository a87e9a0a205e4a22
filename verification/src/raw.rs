//! Raw System-Call Results
//!
//! Every Linux system call returns a native integer. 4096 values at the top
//! of the word range are reserved for error codes: a word `v` above
//! `max - 4096` stands for the error number `max - v + 1`, which is the
//! two's-complement negation of `v`. All other words are success payloads.
//!
//! The rule is stated once over an arbitrary word maximum
//! ([`word_is_error`], [`word_error_code`]), so that it reads the same for
//! every word width. [`Retval`] applies it at the width of `usize`, whatever
//! that width is on the target.

use vstd::prelude::*;
use vstd::arithmetic::div_mod::lemma_mod_add_multiples_vanish;
use vstd::arithmetic::div_mod::lemma_small_mod;
use vstd::pervasive::unreached;

verus! {

/// Number of words at the top of the range that are reserved for errors.
pub const ERROR_CODES: usize = 4096;

/// Whether the word `v`, out of a word range that ends at `max`, is an error.
pub open spec fn word_is_error(max: int, v: int) -> bool {
    v > max - ERROR_CODES
}

/// The error number that the word `v` stands for: the distance of `v` below
/// the end of the word range, counted from one.
pub open spec fn word_error_code(max: int, v: int) -> int {
    max - v + 1
}

/// In a word range of any width that holds more than the reserved values,
/// the error number of an error word is its negation modulo the size of the
/// range, and lies between 1 and 4096.
pub proof fn law_error_code_is_negation(max: int, v: int)
    requires
        max >= 4096,
        0 <= v <= max,
        word_is_error(max, v),
    ensures
        word_error_code(max, v) == (-v) % (max + 1),
        1 <= word_error_code(max, v) <= 4096,
{
    let m = max + 1;
    lemma_mod_add_multiples_vanish(-v, m);
    lemma_small_mod((m - v) as nat, m as nat);
}

/// Words at the same distance `d` from the end of their range are classified
/// alike and stand for the same error number, whatever the two widths are.
pub proof fn law_width_independent(narrow_max: int, wide_max: int, d: int)
    ensures
        word_is_error(narrow_max, narrow_max - d) == word_is_error(wide_max, wide_max - d),
        word_error_code(narrow_max, narrow_max - d) == word_error_code(wide_max, wide_max - d),
        word_is_error(narrow_max, narrow_max - d) <==> d < 4096,
        word_error_code(narrow_max, narrow_max - d) == d + 1,
{
}

/// System Call Return Value
///
/// On linux platforms, system calls return native integers as result. A
/// special range is used for errors. This type wraps this result type and
/// provides accessors to its underlying values. Its view is the wrapped word.
#[derive(Copy, Clone, Debug, PartialEq, Eq, Structural)]
pub struct Retval(usize);

impl View for Retval {
    type V = usize;

    closed spec fn view(&self) -> usize {
        self.0
    }
}

impl Retval {
    /// Whether the wrapped word lies in the error range of `usize`.
    pub open spec fn spec_is_error(self) -> bool {
        word_is_error(usize::MAX as int, self@ as int)
    }

    /// Whether the wrapped word is a success payload.
    pub open spec fn spec_is_success(self) -> bool {
        !self.spec_is_error()
    }

    /// The error number that the wrapped word stands for. It is meaningful
    /// for error words only.
    pub open spec fn error_code(self) -> int {
        word_error_code(usize::MAX as int, self@ as int)
    }

    /// The two-armed reading of the wrapped word: the payload of a success
    /// word, the error number of an error word.
    pub open spec fn outcome(self) -> Result<usize, usize> {
        if self.spec_is_error() {
            Err(self.error_code() as usize)
        } else {
            Ok(self@)
        }
    }

    /// Create a new return-value from raw data
    pub fn from_usize(v: usize) -> (r: Retval)
        ensures
            r@ == v,
    {
        Retval(v)
    }

    /// Return raw underlying data of a return-value
    pub fn as_usize(self) -> (v: usize)
        ensures
            v == self@,
    {
        self.0
    }

    /// Check whether this is an error-return
    #[verifier::when_used_as_spec(spec_is_error)]
    pub fn is_error(self) -> (b: bool)
        ensures
            b == self.spec_is_error(),
            b == (self@ > usize::MAX - 4096),
    {
        self.0 > usize::MAX - ERROR_CODES
    }

    /// Check whether this is a success-return
    #[verifier::when_used_as_spec(spec_is_success)]
    pub fn is_success(self) -> (b: bool)
        ensures
            b == self.spec_is_success(),
            b == (self@ <= usize::MAX - 4096),
    {
        !self.is_error()
    }

    /// Return the error-code unchecked
    ///
    /// This does not test that `self` is an error-return: the caller has
    /// done so, and states it as the precondition.
    pub fn error_unchecked(self) -> (code: usize)
        requires
            self.is_error(),
        ensures
            code == self.error_code(),
            code == usize::MAX - self@ + 1,
            code == (-(self@ as int)) % (usize::MAX + 1),
            1 <= code <= 4096,
    {
        let v: usize = self.0;
        proof {
            let top: usize = usize::MAX;
            law_error_code_is_negation(top as int, v as int);
            assert(top <= !0usize && !v == !0usize - v) by (bit_vector);
        }
        !v + 1
    }

    /// Return the error-code
    ///
    /// `self` must be an error-return. Verified callers prove it; a caller
    /// outside verification that breaks it is stopped instead of being handed
    /// a number.
    pub fn error(self) -> (code: usize)
        requires
            self.is_error(),
        ensures
            code == self.error_code(),
            code == usize::MAX - self@ + 1,
            code == (-(self@ as int)) % (usize::MAX + 1),
            1 <= code <= 4096,
    {
        if self.is_error() {
            self.error_unchecked()
        } else {
            unreached()
        }
    }

    /// Return the success-value unchecked
    ///
    /// This does not test that `self` is a success-return: the caller has
    /// done so, and states it as the precondition.
    pub fn unwrap_unchecked(self) -> (v: usize)
        requires
            self.is_success(),
        ensures
            v == self@,
            v <= usize::MAX - 4096,
    {
        self.0
    }

    /// Return the success value
    ///
    /// `self` must be a success-return. Verified callers prove it; a caller
    /// outside verification that breaks it is stopped instead of being handed
    /// a number.
    pub fn unwrap(self) -> (v: usize)
        requires
            self.is_success(),
        ensures
            v == self@,
            v <= usize::MAX - 4096,
    {
        if self.is_success() {
            self.unwrap_unchecked()
        } else {
            unreached()
        }
    }

    /// Convert into a Result
    ///
    /// This maps the error-return to `Err(code)` and the success-return to
    /// `Ok(payload)`, so that the conveniences of `Result` can be used on it.
    pub fn to_result(self) -> (res: Result<usize, usize>)
        ensures
            res == self.outcome(),
            self.is_success() ==> res == Ok::<usize, usize>(self@),
            self.is_error() ==> res == Err::<usize, usize>((usize::MAX - self@ + 1) as usize),
    {
        if self.is_error() {
            Err(self.error_unchecked())
        } else {
            Ok(self.unwrap_unchecked())
        }
    }

    /// Every word up to `max - 4096` is a success-return, and its payload
    /// is the word itself.
    pub proof fn law_success_range(self)
        requires
            self@ <= usize::MAX - 4096,
        ensures
            self.is_success(),
            !self.is_error(),
            self.outcome() == Ok::<usize, usize>(self@),
    {
    }

    /// Every word above `max - 4096` is an error-return, and its error number
    /// is the negation of the word modulo `max + 1`, between 1 and 4096.
    pub proof fn law_error_range(self)
        requires
            self@ > usize::MAX - 4096,
        ensures
            self.is_error(),
            !self.is_success(),
            self.error_code() == (-(self@ as int)) % (usize::MAX + 1),
            1 <= self.error_code() <= 4096,
            self.outcome() == Err::<usize, usize>(self.error_code() as usize),
    {
        law_error_code_is_negation(usize::MAX as int, self@ as int);
    }

    /// Classification and extraction depend on the wrapped word alone: two
    /// return-values of the same word are equal, and every reading of one is
    /// the same reading of the other.
    pub proof fn law_word_decides(self, other: Retval)
        requires
            self@ == other@,
        ensures
            self == other,
            self.is_error() == other.is_error(),
            self.is_success() == other.is_success(),
            self.error_code() == other.error_code(),
            self.outcome() == other.outcome(),
    {
    }
}

} // verus!
