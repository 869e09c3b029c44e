//! Length and alphabet validation: turning an arbitrary input string into a
//! normalized, well-formed VIN or a diagnostic error.

use vstd::prelude::*;

use crate::chars::is_vin_char;
use crate::chars::to_upper;
use crate::chars::upper_char;
use crate::chars::vin_char;

verus! {

/// Character-wise case normalization of a whole string.
pub open spec fn normalize(s: Seq<char>) -> Seq<char> {
    Seq::new(s.len(), |i: int| to_upper(s[i]))
}

/// A sequence is a well-formed VIN when it has exactly 17 characters, all of
/// them from the permitted alphabet.
pub open spec fn valid_vin(s: Seq<char>) -> bool {
    s.len() == 17 && (forall|i: int| 0 <= i < s.len() ==> is_vin_char(#[trigger] s[i]))
}

/// The characters of `s` outside the permitted alphabet, in order of
/// appearance (duplicates kept, so the offending positions stay countable).
pub open spec fn bad_chars(s: Seq<char>) -> Seq<char>
    decreases s.len(),
{
    if s.len() == 0 {
        Seq::empty()
    } else if is_vin_char(s.last()) {
        bad_chars(s.drop_last())
    } else {
        bad_chars(s.drop_last()).push(s.last())
    }
}

/// A string has no offending characters exactly when every character is
/// permitted.
pub proof fn lemma_bad_chars_empty(s: Seq<char>)
    ensures
        bad_chars(s).len() == 0 <==> (forall|i: int|
            0 <= i < s.len() ==> is_vin_char(#[trigger] s[i])),
    decreases s.len(),
{
    if s.len() > 0 {
        lemma_bad_chars_empty(s.drop_last());
        assert(forall|i: int| 0 <= i < s.len() - 1 ==> s[i] == #[trigger] s.drop_last()[i]);
        if forall|i: int| 0 <= i < s.len() ==> is_vin_char(#[trigger] s[i]) {
            assert(forall|i: int|
                0 <= i < s.drop_last().len() ==> is_vin_char(#[trigger] s.drop_last()[i]));
            assert(is_vin_char(s[s.len() - 1]));
            assert(bad_chars(s).len() == 0);
        }
        if bad_chars(s).len() == 0 {
            assert(is_vin_char(s.last()));
            assert forall|i: int| 0 <= i < s.len() implies is_vin_char(#[trigger] s[i]) by {
                if i < s.len() - 1 {
                    assert(s[i] == s.drop_last()[i]);
                    assert(is_vin_char(s.drop_last()[i]));
                } else {
                    assert(s[i] == s.last());
                }
            }
        }
    }
}

/// Why an input failed validation or checksum verification.
#[derive(Debug)]
pub enum VINError {
    /// The input does not have exactly 17 characters; carries the actual
    /// character count.
    IncorrectLength(usize),
    /// The input holds characters outside the permitted alphabet; carries
    /// them (after case normalization) in order of appearance.
    InvalidCharacters(Vec<char>),
    /// The character in the check-digit slot differs from the computed one.
    ChecksumError { expected: char, received: char },
}

/// What a validation error reports of the input it was returned for:
/// a length error carries the actual count and comes only on inputs whose
/// length is not 17; a character error carries the offending characters and
/// comes only on length-17 inputs that hold at least one; a checksum error is
/// never a validation error.
pub open spec fn validation_error(s: Seq<char>, e: VINError) -> bool {
    match e {
        VINError::IncorrectLength(n) => s.len() != 17 && n as nat == s.len(),
        VINError::InvalidCharacters(cs) => s.len() == 17 && cs@ == bad_chars(normalize(s))
            && cs@.len() > 0,
        VINError::ChecksumError { .. } => false,
    }
}

/// A length-17 input that holds `I`, `O` or `Q`, in either case, fails the
/// alphabet check after normalization.
pub proof fn lemma_ioq_rejected(s: Seq<char>, i: int)
    requires
        s.len() == 17,
        0 <= i < s.len(),
        s[i] == 'I' || s[i] == 'O' || s[i] == 'Q' || s[i] == 'i' || s[i] == 'o' || s[i] == 'q',
    ensures
        !valid_vin(normalize(s)),
        bad_chars(normalize(s)).len() > 0,
{
    assert(normalize(s)[i] == to_upper(s[i]));
    assert(!is_vin_char(normalize(s)[i]));
    lemma_bad_chars_empty(normalize(s));
}

/// Case normalization is the identity on a well-formed VIN: its alphabet
/// holds no lowercase letters. So feeding a normalized VIN back in changes
/// nothing, and the laws stated over well-formed VINs carry over to the
/// string operations, whose contracts speak of the normalized input.
pub proof fn lemma_normalize_of_valid(s: Seq<char>)
    requires
        valid_vin(s),
    ensures
        normalize(s) == s,
{
    assert forall|i: int| 0 <= i < s.len() implies normalize(s)[i] == s[i] by {
        assert(is_vin_char(s[i]));
    }
    assert(normalize(s) =~= s);
}

/// An error reported for an input whose length is not 17 can only be
/// `IncorrectLength`, carrying that length.
pub proof fn lemma_length_error(s: Seq<char>, e: VINError)
    requires
        s.len() != 17,
        validation_error(s, e),
    ensures
        e matches VINError::IncorrectLength(n) && n as nat == s.len(),
{
}

/// An error reported for a length-17 input that is not well-formed after
/// normalization can only be `InvalidCharacters`, carrying exactly the
/// offending characters.
pub proof fn lemma_character_error(s: Seq<char>, e: VINError)
    requires
        s.len() == 17,
        !valid_vin(normalize(s)),
        validation_error(s, e),
    ensures
        e matches VINError::InvalidCharacters(cs) && cs@ == bad_chars(normalize(s)),
{
    lemma_bad_chars_empty(normalize(s));
}

/// A normalized, well-formed VIN: exactly 17 characters, all from the
/// permitted alphabet, letters uppercase. Only [`validate`] constructs one.
pub struct Vin {
    chars: Vec<char>,
}

impl View for Vin {
    type V = Seq<char>;

    closed spec fn view(&self) -> Seq<char> {
        self.chars@
    }
}

impl Vin {
    /// Holds of every value of this type: the view is a well-formed VIN.
    #[verifier::type_invariant]
    pub open spec fn well_formed(self) -> bool {
        valid_vin(self@)
    }

    /// The character at a position of the VIN.
    pub fn char_at(&self, i: usize) -> (c: char)
        requires
            i < 17,
        ensures
            c == self@[i as int],
    {
        proof {
            use_type_invariant(self);
        }
        self.chars[i]
    }

    /// The VIN as a string.
    pub fn to_vin_string(&self) -> (r: String)
        ensures
            r@ == self@,
    {
        proof {
            use_type_invariant(self);
        }
        let mut out = String::new();
        let mut i: usize = 0;
        while i < self.chars.len()
            invariant
                i <= self.chars.len(),
                out@ == self@.take(i as int),
                valid_vin(self@),
            decreases self.chars.len() - i,
        {
            push_char(&mut out, self.chars[i]);
            assert(self@.take(i + 1) =~= self@.take(i as int).push(self@[i as int]));
            i += 1;
        }
        assert(self@.take(self.chars.len() as int) =~= self@);
        out
    }
}

/// Relies on `String::push`: appends the given character to the end of the
/// string.
#[verifier::external_body]
fn push_char(s: &mut String, c: char)
    ensures
        final (s)@ == old(s)@.push(c),
{
    s.push(c)
}

/// Validates an arbitrary input string: normalizes its case and checks,
/// in this order, that it has exactly 17 characters and that every character
/// is from the permitted alphabet. Pure; returns the normalized VIN or the
/// first applicable diagnostic.
pub fn validate(vin: &str) -> (r: Result<Vin, VINError>)
    ensures
        r is Ok <==> valid_vin(normalize(vin@)),
        match r {
            Ok(v) => v@ == normalize(vin@),
            Err(e) => validation_error(vin@, e),
        },
{
    let n = vin.unicode_len();
    if n != 17 {
        return Err(VINError::IncorrectLength(n));
    }
    let mut chars: Vec<char> = Vec::new();
    let mut bad: Vec<char> = Vec::new();
    let ghost norm = normalize(vin@);
    let mut i: usize = 0;
    while i < 17
        invariant
            i <= 17,
            vin@.len() == 17,
            norm == normalize(vin@),
            chars@ == norm.take(i as int),
            bad@ == bad_chars(norm.take(i as int)),
        decreases 17 - i,
    {
        let c = vin.get_char(i);
        let u = upper_char(c);
        assert(u == norm[i as int]);
        chars.push(u);
        if !vin_char(u) {
            bad.push(u);
        }
        proof {
            assert(norm.take(i + 1) =~= norm.take(i as int).push(norm[i as int]));
            assert(norm.take(i + 1).drop_last() =~= norm.take(i as int));
        }
        i += 1;
    }
    assert(norm.take(17) =~= norm);
    if bad.len() > 0 {
        proof {
            lemma_bad_chars_empty(norm);
        }
        Err(VINError::InvalidCharacters(bad))
    } else {
        proof {
            lemma_bad_chars_empty(norm);
        }
        Ok(Vin { chars })
    }
}

} // verus!
