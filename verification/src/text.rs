//! Text at the boundary to the engine: the engine takes zero-terminated byte
//! strings, so a text that holds a zero byte is refused before any call, and
//! hands back byte strings that are read as UTF-8.

use crate::errors::{ErrorModel, HapiError, Kind};
use vstd::prelude::*;
use vstd::string::StringSliceAdditionalSpecFns;
use vstd::utf8::{decode_utf8, valid_utf8};

verus! {

/// Whether a byte string holds a zero byte.
pub open spec fn has_nul(bytes: Seq<u8>) -> bool {
    exists|i: int| 0 <= i < bytes.len() && bytes[i] == 0u8
}

/// What `String::from_utf8_lossy` makes of a byte string that is not UTF-8.
pub uninterp spec fn lossy_text(bytes: Seq<u8>) -> Seq<char>;

/// The text that a byte string from the engine is read as: its decoding where
/// it is UTF-8, else the lossy conversion.
pub open spec fn text_of(bytes: Seq<u8>) -> Seq<char> {
    if valid_utf8(bytes) {
        decode_utf8(bytes)
    } else {
        lossy_text(bytes)
    }
}

/// Calls `String::from_utf8_lossy`. Its documentation says that the bytes are
/// converted to a string, and that invalid sequences are replaced: so valid
/// UTF-8 comes back as the text it encodes. What is made of other input is
/// not stated here, only named.
#[verifier::external_body]
fn from_utf8_lossy(bytes: &[u8]) -> (text: String)
    ensures
        valid_utf8(bytes@) ==> text@ == decode_utf8(bytes@),
        !valid_utf8(bytes@) ==> text@ == lossy_text(bytes@),
{
    String::from_utf8_lossy(bytes).into_owned()
}

/// Reads a byte string from the engine as text.
pub fn text_from_bytes(bytes: &[u8]) -> (text: String)
    ensures
        text@ == text_of(bytes@),
{
    from_utf8_lossy(bytes)
}

/// A text for the engine: bytes without a zero byte among them. The
/// terminator is not part of it.
#[derive(Debug)]
pub struct NativeString {
    bytes: Vec<u8>,
}

impl View for NativeString {
    type V = Seq<u8>;

    closed spec fn view(&self) -> Seq<u8> {
        self.bytes@
    }
}

/// Whether the first `n` bytes are free of zero bytes.
spec fn clean_prefix(bytes: Seq<u8>, n: int) -> bool {
    forall|j: int| 0 <= j < n ==> bytes[j] != 0u8
}

/// Looks for a zero byte.
pub fn find_nul(bytes: &[u8]) -> (r: Option<usize>)
    ensures
        r is Some <==> has_nul(bytes@),
        r matches Some(i) ==> i < bytes.len() && bytes[i as int] == 0u8 && forall|j: int|
            0 <= j < i ==> bytes[j] != 0u8,
{
    let mut i: usize = 0;
    while i < bytes.len()
        invariant
            i <= bytes.len(),
            clean_prefix(bytes@, i as int),
        decreases bytes.len() - i,
    {
        if bytes[i] == 0 {
            return Some(i);
        }
        i += 1;
    }
    None
}

impl NativeString {
    #[verifier::type_invariant]
    spec fn well_formed(self) -> bool {
        !has_nul(self.bytes@)
    }

    /// The text as bytes for the engine, or `NullByte` if the text holds a
    /// zero byte.
    pub fn new(text: &str) -> (r: Result<NativeString, HapiError>)
        ensures
            r is Err <==> has_nul(text.spec_bytes()),
            r matches Ok(n) ==> n@ == text.spec_bytes(),
            r matches Err(e) ==> e@ == (ErrorModel {
                kind: Kind::NullByte,
                message: None,
                session: None,
            }),
    {
        NativeString::from_bytes(text.as_bytes_vec())
    }

    /// The bytes as a text for the engine, or `NullByte` if one of them is zero.
    pub fn from_bytes(bytes: Vec<u8>) -> (r: Result<NativeString, HapiError>)
        ensures
            r is Err <==> has_nul(bytes@),
            r matches Ok(n) ==> n@ == bytes@,
            r matches Err(e) ==> e@ == (ErrorModel {
                kind: Kind::NullByte,
                message: None,
                session: None,
            }),
    {
        match find_nul(bytes.as_slice()) {
            Some(_) => Err(HapiError::null_byte()),
            None => Ok(NativeString { bytes }),
        }
    }

    /// The bytes, without a terminator. None of them is zero.
    pub fn as_bytes(&self) -> (bytes: &[u8])
        ensures
            bytes@ == self@,
            !has_nul(self@),
    {
        proof {
            use_type_invariant(self);
        }
        self.bytes.as_slice()
    }

    /// The bytes followed by the terminator, as the engine reads them.
    pub fn to_bytes_with_nul(&self) -> (bytes: Vec<u8>)
        ensures
            bytes@ == self@.push(0u8),
    {
        let mut out: Vec<u8> = Vec::new();
        let mut i: usize = 0;
        while i < self.bytes.len()
            invariant
                i <= self.bytes.len(),
                out@ == self.bytes@.take(i as int),
            decreases self.bytes.len() - i,
        {
            out.push(self.bytes[i]);
            proof {
                assert(self.bytes@.take(i as int).push(self.bytes@[i as int]) =~= self.bytes@.take(
                    i + 1,
                ));
            }
            i += 1;
        }
        proof {
            assert(self.bytes@.take(self.bytes@.len() as int) =~= self.bytes@);
        }
        out.push(0);
        out
    }

    /// A copy of this text.
    pub fn duplicate(&self) -> (copy: NativeString)
        ensures
            copy@ == self@,
    {
        proof {
            use_type_invariant(self);
        }
        let mut bytes = self.to_bytes_with_nul();
        bytes.pop();
        proof {
            assert(bytes@ =~= self.bytes@);
        }
        NativeString { bytes }
    }

    /// The text as a string.
    pub fn to_string_lossy(&self) -> (text: String)
        ensures
            text@ == text_of(self@),
    {
        text_from_bytes(self.bytes.as_slice())
    }

    pub fn len(&self) -> (n: usize)
        ensures
            n == self@.len(),
    {
        self.bytes.len()
    }
}

/// The texts joined by colons, as the engine takes a list of search paths.
pub open spec fn joined(paths: Seq<Seq<char>>) -> Seq<char>
    decreases paths.len(),
{
    if paths.len() == 0 {
        Seq::empty()
    } else if paths.len() == 1 {
        paths[0]
    } else {
        joined(paths.drop_last()) + seq![':'] + paths.last()
    }
}

/// The views of a list of strings.
pub open spec fn texts(strings: Seq<String>) -> Seq<Seq<char>> {
    strings.map_values(|s: String| s@)
}

/// Joins paths into the colon-separated list that the engine takes.
pub fn join_paths(files: &[String]) -> (list: String)
    ensures
        list@ == joined(texts(files@)),
{
    let mut buf = String::new();
    let mut i: usize = 0;
    while i < files.len()
        invariant
            i <= files.len(),
            buf@ == joined(texts(files@).take(i as int)),
        decreases files.len() - i,
    {
        proof {
            reveal_strlit(":");
            let all = texts(files@);
            let next = all.take(i + 1);
            assert(next.drop_last() =~= all.take(i as int));
            assert(next.last() == files@[i as int]@);
            assert(":"@ =~= seq![':']);
        }
        if i > 0 {
            buf.append(":");
        }
        buf.append(files[i].as_str());
        proof {
            if i == 0 {
                assert(buf@ =~= files@[0]@);
            }
        }
        i += 1;
    }
    proof {
        assert(texts(files@).take(files@.len() as int) =~= texts(files@));
    }
    buf
}

} // verus!
