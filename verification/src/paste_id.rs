//! Paste identifiers: short strings over the 62-symbol alphabet
//! `[0-9A-Za-z]`, either freshly generated at random or parsed from an
//! untrusted path segment.
use vstd::prelude::*;
use vstd::string::StrSliceExecFns;
use vstd::string::StringExecFns;
use rand::Rng;

verus! {

/// Number of characters of a freshly generated identifier.
pub const ID_LENGTH: usize = 12;

/// A character of the identifier alphabet: ASCII digits and letters.
pub open spec fn is_id_char(c: char) -> bool {
    ('0' <= c && c <= '9') || ('A' <= c && c <= 'Z') || ('a' <= c && c <= 'z')
}

/// A syntactically valid identifier: non-empty, every character drawn
/// from the 62-symbol alphabet.
pub open spec fn valid_id(s: Seq<char>) -> bool {
    s.len() > 0 && forall|i: int| 0 <= i < s.len() ==> is_id_char(#[trigger] s[i])
}

/// The character of the 62-symbol alphabet standing at the given index:
/// indices below 10 map to the digits, the next 26 to the upper-case
/// letters, the rest to the lower-case letters.
pub open spec fn base62_char_at(i: int) -> char
    recommends
        0 <= i < 62,
{
    if i < 10 {
        (('0' as int + i) as u8) as char
    } else if i < 36 {
        (('A' as int + (i - 10)) as u8) as char
    } else {
        (('a' as int + (i - 36)) as u8) as char
    }
}

/// Relies on rand::Rng::gen on the thread-local generator
/// rand::thread_rng: returns some machine word; nothing is promised of
/// its value, so every caller must hold for every outcome.
#[verifier::external_body]
fn random_usize() -> usize {
    rand::thread_rng().gen::<usize>()
}

/// Relies on String::push: appends the given character to the end of the
/// string.
#[verifier::external_body]
fn push_char(s: &mut String, c: char)
    ensures
        final(s)@ == old(s)@.push(c),
{
    s.push(c)
}

/// Selects the alphabet character standing at the given index.
fn base62_char(i: u8) -> (c: char)
    requires
        i < 62,
    ensures
        c == base62_char_at(i as int),
        is_id_char(c),
{
    if i < 10 {
        ('0' as u8 + i) as char
    } else if i < 36 {
        ('A' as u8 + (i - 10)) as char
    } else {
        ('a' as u8 + (i - 36)) as char
    }
}

/// The identifier naming one paste. Its invariant: the string is
/// non-empty and every character is ASCII alphanumeric, so it is safe
/// to use as a storage key (no separators, no traversal sequences).
pub struct PasteId {
    id: String,
}

impl View for PasteId {
    type V = Seq<char>;

    closed spec fn view(&self) -> Seq<char> {
        self.id@
    }
}

impl PasteId {
    /// Well-formedness: the wrapped string is a valid identifier.
    pub open spec fn wf(&self) -> bool {
        valid_id(self@)
    }

    /// Read access to the identifier text.
    pub fn as_str(&self) -> (r: &str)
        ensures
            r@ == self@,
    {
        self.id.as_str()
    }

    /// Generates a probably-unique identifier of `size` characters, each
    /// drawn independently from the 62-symbol alphabet. Collisions are
    /// accepted by design: the scheme is probably-unique, not
    /// collision-free.
    pub fn new(size: usize) -> (r: PasteId)
        requires
            1 <= size,
        ensures
            r.wf(),
            r@.len() == size as nat,
    {
        let mut id = String::new();
        let mut i: usize = 0;
        while i < size
            invariant
                i <= size,
                id@.len() == i as nat,
                forall|j: int| 0 <= j < i ==> is_id_char(#[trigger] id@[j]),
            decreases size - i,
        {
            let w = random_usize();
            let c = base62_char((w % 62) as u8);
            push_char(&mut id, c);
            i += 1;
        }
        PasteId { id }
    }

    /// The path of this paste's file under the `upload` directory, for a
    /// filesystem-backed variant of the store.
    pub fn file_path(&self) -> (r: String)
        ensures
            r@ == "upload/"@ + self@,
    {
        let mut p = "upload/".to_owned();
        p.append(self.id.as_str());
        p
    }

    /// Accepts the candidate only if it is non-empty and every character
    /// is ASCII alphanumeric; otherwise returns the original candidate as
    /// diagnostic context.
    pub fn parse(candidate: &str) -> (r: Result<PasteId, String>)
        ensures
            r is Ok <==> valid_id(candidate@),
            r matches Ok(id) ==> id@ == candidate@ && id.wf(),
            r matches Err(e) ==> e@ == candidate@,
    {
        let len = candidate.unicode_len();
        if len == 0 {
            return Err(candidate.to_owned());
        }
        let mut i: usize = 0;
        while i < len
            invariant
                i <= len,
                len == candidate@.len(),
                forall|j: int| 0 <= j < i ==> is_id_char(#[trigger] candidate@[j]),
            decreases len - i,
        {
            let c = candidate.get_char(i);
            if !(('0' <= c && c <= '9') || ('A' <= c && c <= 'Z') || ('a' <= c && c <= 'z')) {
                return Err(candidate.to_owned());
            }
            i += 1;
        }
        Ok(PasteId { id: candidate.to_owned() })
    }
}

} // verus!
