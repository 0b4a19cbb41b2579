//! The string table resolver. The engine hands out small integers for the
//! strings it holds; a text is had by asking for the size of a buffer, then
//! for the buffer. A batch of handles is resolved with one such exchange: the
//! buffer then holds the strings back to back, each followed by a zero byte.

use crate::errors::{classify, translate, ErrorModel, HapiError, Kind};
use crate::marshal::{keep, prefix, Reply, Step};
use crate::node::StringHandle;
use crate::session::NativeSession;
use crate::text::{has_nul, text_from_bytes, text_of, texts, NativeString};
use vstd::prelude::*;
use vstd::slice::slice_subrange;

verus! {

/// A native call of the string table.
#[derive(Debug)]
pub enum StringCall {
    /// Asks for the length of the buffer for one string, terminator included.
    GetStringBufLength { session: NativeSession, handle: StringHandle },
    /// Fetches one string into a buffer of `length` bytes.
    GetString { session: NativeSession, handle: StringHandle, length: i32 },
    /// Asks for the length of the buffer for all strings of a batch.
    GetStringBatchSize { session: NativeSession, handles: Vec<i32> },
    /// Fetches the batch that was last sized into a buffer of `length` bytes.
    GetStringBatch { session: NativeSession, length: i32 },
}

/// The position of the first zero byte, or the length where there is none.
pub open spec fn terminator(bytes: Seq<u8>) -> int
    decreases bytes.len(),
{
    if bytes.len() == 0 || bytes[0] == 0u8 {
        0
    } else {
        1 + terminator(bytes.skip(1))
    }
}

/// The first terminated string of a buffer and what follows its terminator,
/// or `None` where no zero byte is left.
pub open spec fn split_first(bytes: Seq<u8>) -> Option<(Seq<u8>, Seq<u8>)> {
    let t = terminator(bytes);
    if 0 <= t < bytes.len() {
        Some((bytes.take(t), bytes.skip(t + 1)))
    } else {
        None
    }
}

/// The terminated strings of a buffer, in order and without their
/// terminators. What follows the last zero byte belongs to no string.
pub open spec fn split_terminated(bytes: Seq<u8>) -> Seq<Seq<u8>>
    decreases bytes.len(),
{
    let t = terminator(bytes);
    if 0 <= t < bytes.len() {
        seq![bytes.take(t)] + split_terminated(bytes.skip(t + 1))
    } else {
        Seq::empty()
    }
}

/// The strings laid out back to back, each followed by a zero byte.
pub open spec fn wire(strings: Seq<Seq<u8>>) -> Seq<u8>
    decreases strings.len(),
{
    if strings.len() == 0 {
        Seq::empty()
    } else {
        strings[0].push(0u8) + wire(strings.skip(1))
    }
}

/// The terminator lies within the buffer or at its end; no byte before it is
/// zero, and where it lies within, the byte there is zero.
pub proof fn lemma_terminator(bytes: Seq<u8>)
    ensures
        0 <= terminator(bytes) <= bytes.len(),
        forall|j: int| 0 <= j < terminator(bytes) ==> bytes[j] != 0u8,
        terminator(bytes) < bytes.len() ==> bytes[terminator(bytes)] == 0u8,
        terminator(bytes) == bytes.len() <==> !has_nul(bytes),
    decreases bytes.len(),
{
    if bytes.len() == 0 || bytes[0] == 0u8 {
    } else {
        let rest = bytes.skip(1);
        lemma_terminator(rest);
        let t = terminator(rest);
        assert forall|j: int| 0 <= j < 1 + t implies bytes[j] != 0u8 by {
            if j > 0 {
                assert(rest[j - 1] == bytes[j]);
            }
        }
        if t < rest.len() {
            assert(rest[t] == bytes[t + 1]);
        }
        if has_nul(bytes) {
            let i = choose|i: int| 0 <= i < bytes.len() && bytes[i] == 0u8;
            assert(rest[i - 1] == bytes[i]);
        }
        if has_nul(rest) {
            let i = choose|i: int| 0 <= i < rest.len() && rest[i] == 0u8;
            assert(bytes[i + 1] == rest[i]);
        }
    }
}

/// The first zero byte is found where no byte before it is zero.
pub proof fn lemma_terminator_is(bytes: Seq<u8>, i: int)
    requires
        0 <= i <= bytes.len(),
        forall|j: int| 0 <= j < i ==> bytes[j] != 0u8,
        i < bytes.len() ==> bytes[i] == 0u8,
    ensures
        terminator(bytes) == i,
{
    lemma_terminator(bytes);
    let t = terminator(bytes);
    if t < i {
        assert(bytes[t] == 0u8);
    } else if i < t {
        assert(bytes[i] == 0u8);
    }
}

/// A buffer that begins with a string free of zero bytes and its terminator
/// splits into that string and the rest.
pub proof fn lemma_split_first_of_wire(head: Seq<u8>, rest: Seq<u8>)
    requires
        !has_nul(head),
    ensures
        split_first(head.push(0u8) + rest) == Some((head, rest)),
        split_terminated(head.push(0u8) + rest) == seq![head] + split_terminated(rest),
{
    let all = head.push(0u8) + rest;
    assert forall|j: int| 0 <= j < head.len() implies all[j] != 0u8 by {
        assert(all[j] == head[j]);
    }
    assert(all[head.len() as int] == 0u8);
    lemma_terminator_is(all, head.len() as int);
    assert(all.take(head.len() as int) =~= head);
    assert(all.skip(head.len() as int + 1) =~= rest);
}

/// Splitting what was laid out back to back gives the strings back, as many
/// as there were and in their order, provided that none of them holds a
/// zero byte.
pub proof fn lemma_split_of_wire(strings: Seq<Seq<u8>>)
    requires
        forall|i: int| 0 <= i < strings.len() ==> !has_nul(#[trigger] strings[i]),
    ensures
        split_terminated(wire(strings)) == strings,
    decreases strings.len(),
{
    if strings.len() == 0 {
        assert(split_terminated(wire(strings)) =~= strings);
    } else {
        let rest = strings.skip(1);
        assert forall|i: int| 0 <= i < rest.len() implies !has_nul(#[trigger] rest[i]) by {
            assert(rest[i] == strings[i + 1]);
        }
        lemma_split_of_wire(rest);
        lemma_split_first_of_wire(strings[0], wire(rest));
        assert(seq![strings[0]] + rest =~= strings);
    }
}

/// A buffer without a zero byte holds no string; so does the empty buffer.
pub proof fn lemma_split_of_unterminated(bytes: Seq<u8>)
    requires
        !has_nul(bytes),
    ensures
        split_terminated(bytes) == Seq::<Seq<u8>>::empty(),
        split_first(bytes) is None,
{
    lemma_terminator(bytes);
}

/// No string that is split off a buffer holds a zero byte, and the buffer
/// that is left is shorter.
pub proof fn lemma_split_first(bytes: Seq<u8>)
    ensures
        split_first(bytes) matches Some((head, rest)) ==> !has_nul(head) && rest.len()
            < bytes.len() && bytes == head.push(0u8) + rest,
        split_first(bytes) is None <==> !has_nul(bytes),
        split_terminated(bytes) == match split_first(bytes) {
            Some((head, rest)) => seq![head] + split_terminated(rest),
            None => Seq::empty(),
        },
{
    lemma_terminator(bytes);
    let t = terminator(bytes);
    if t < bytes.len() {
        let head = bytes.take(t);
        if has_nul(head) {
            let i = choose|i: int| 0 <= i < head.len() && head[i] == 0u8;
            assert(bytes[i] == head[i]);
        }
        assert(bytes =~= head.push(0u8) + bytes.skip(t + 1));
    }
}

/// A buffer that was fetched for `length` bytes, without the terminator at
/// its end.
pub fn without_terminator(buffer: Vec<u8>, length: i32) -> (kept: Vec<u8>)
    ensures
        kept@ == prefix(buffer@, length - 1),
{
    if length <= 1 {
        keep(buffer, 0)
    } else {
        keep(buffer, length - 1)
    }
}

/// What one step of fetching a single string yields, before the bytes are
/// read as anything: the size query at the start; after it the engine's
/// error, or the empty string and no fetch where the length is not positive,
/// or the fetch of exactly that length; after the fetch the engine's error,
/// or the buffer as far as the length that was asked for, without the
/// terminator at its end.
pub open spec fn string_step(
    handle: StringHandle,
    session: NativeSession,
    reply: Reply<u8>,
    r: Result<Step<StringCall, Vec<u8>>, HapiError>,
) -> bool {
    match reply {
        Reply::Start => r matches Ok(
            Step::Call(StringCall::GetStringBufLength { session: s, handle: h }),
        ) && s == session && h == handle,
        Reply::Size { code, length } => if code != 0 {
            r matches Err(e) && e@ == (ErrorModel {
                kind: Kind::Hapi(classify(code as int)),
                message: None,
                session: Some(session),
            })
        } else if length <= 0 {
            r matches Ok(Step::Done(bytes)) && bytes@.len() == 0
        } else {
            r matches Ok(Step::Call(StringCall::GetString { session: s, handle: h, length: n }))
                && s == session && h == handle && n == length
        },
        Reply::Data { code, length, values } => if code != 0 {
            r matches Err(e) && e@ == (ErrorModel {
                kind: Kind::Hapi(classify(code as int)),
                message: Some("get_string failed"@),
                session: None,
            })
        } else {
            r matches Ok(Step::Done(bytes)) && bytes@ == prefix(values@, length - 1)
        },
    }
}

/// One step of fetching the bytes of a single string.
pub fn get_string_bytes(handle: StringHandle, session: NativeSession, reply: Reply<u8>) -> (r:
    Result<Step<StringCall, Vec<u8>>, HapiError>)
    ensures
        string_step(handle, session, reply, r),
{
    match reply {
        Reply::Start => Ok(Step::Call(StringCall::GetStringBufLength { session, handle })),
        Reply::Size { code, length } => {
            match translate(code, Some(session), None) {
                Err(e) => Err(e),
                Ok(()) => {
                    if length > 0 {
                        Ok(Step::Call(StringCall::GetString { session, handle, length }))
                    } else {
                        Ok(Step::Done(Vec::new()))
                    }
                },
            }
        },
        Reply::Data { code, length, values } => {
            match translate(code, None, Some("get_string failed")) {
                Err(e) => Err(e),
                Ok(()) => Ok(Step::Done(without_terminator(values, length))),
            }
        },
    }
}

/// One step of fetching a single string as text: the steps of fetching its
/// bytes, which are read as text at the end.
pub fn get_string(handle: StringHandle, session: NativeSession, reply: Reply<u8>) -> (r: Result<
    Step<StringCall, String>,
    HapiError,
>)
    ensures
        match reply {
            Reply::Start => r matches Ok(
                Step::Call(StringCall::GetStringBufLength { session: s, handle: h }),
            ) && s == session && h == handle,
            Reply::Size { code, length } => if code != 0 {
                r matches Err(e) && e@ == (ErrorModel {
                    kind: Kind::Hapi(classify(code as int)),
                    message: None,
                    session: Some(session),
                })
            } else if length <= 0 {
                r matches Ok(Step::Done(text)) && text@ == text_of(Seq::<u8>::empty())
            } else {
                r matches Ok(Step::Call(StringCall::GetString { session: s, handle: h, length: n }))
                    && s == session && h == handle && n == length
            },
            Reply::Data { code, length, values } => if code != 0 {
                r matches Err(e) && e@ == (ErrorModel {
                    kind: Kind::Hapi(classify(code as int)),
                    message: Some("get_string failed"@),
                    session: None,
                })
            } else {
                r matches Ok(Step::Done(text)) && text@ == text_of(prefix(values@, length - 1))
            },
        },
{
    match get_string_bytes(handle, session, reply) {
        Err(e) => Err(e),
        Ok(Step::Call(call)) => Ok(Step::Call(call)),
        Ok(Step::Done(bytes)) => {
            proof {
                assert(bytes@.len() == 0 ==> bytes@ =~= Seq::<u8>::empty());
            }
            Ok(Step::Done(text_from_bytes(bytes.as_slice())))
        },
    }
}

/// One step of fetching a single string as a text for the engine: the steps
/// of fetching its bytes, which at the end are refused with `NullByte` where
/// one of them is zero.
pub fn get_cstring(handle: StringHandle, session: NativeSession, reply: Reply<u8>) -> (r: Result<
    Step<StringCall, NativeString>,
    HapiError,
>)
    ensures
        match reply {
            Reply::Start => r matches Ok(
                Step::Call(StringCall::GetStringBufLength { session: s, handle: h }),
            ) && s == session && h == handle,
            Reply::Size { code, length } => if code != 0 {
                r matches Err(e) && e@ == (ErrorModel {
                    kind: Kind::Hapi(classify(code as int)),
                    message: None,
                    session: Some(session),
                })
            } else if length <= 0 {
                r matches Ok(Step::Done(text)) && text@.len() == 0
            } else {
                r matches Ok(Step::Call(StringCall::GetString { session: s, handle: h, length: n }))
                    && s == session && h == handle && n == length
            },
            Reply::Data { code, length, values } => if code != 0 {
                r matches Err(e) && e@ == (ErrorModel {
                    kind: Kind::Hapi(classify(code as int)),
                    message: Some("get_string failed"@),
                    session: None,
                })
            } else if has_nul(prefix(values@, length - 1)) {
                r matches Err(e) && e@ == (ErrorModel {
                    kind: Kind::NullByte,
                    message: None,
                    session: None,
                })
            } else {
                r matches Ok(Step::Done(text)) && text@ == prefix(values@, length - 1)
            },
        },
{
    match get_string_bytes(handle, session, reply) {
        Err(e) => Err(e),
        Ok(Step::Call(call)) => Ok(Step::Call(call)),
        Ok(Step::Done(bytes)) => {
            match NativeString::from_bytes(bytes) {
                Err(e) => Err(e),
                Ok(text) => Ok(Step::Done(text)),
            }
        },
    }
}

/// A buffer of terminated strings, back to back.
#[derive(Debug)]
pub struct StringBuffer {
    bytes: Vec<u8>,
}

impl View for StringBuffer {
    type V = Seq<u8>;

    closed spec fn view(&self) -> Seq<u8> {
        self.bytes@
    }
}

/// Walks a buffer and hands out its strings as text.
pub struct StringIter<'a> {
    inner: &'a [u8],
}

/// Walks a buffer that it owns and hands out its strings as text.
pub struct OwnedStringIter {
    inner: Vec<u8>,
    cursor: usize,
}

/// Walks a buffer and hands out its strings as texts for the engine.
pub struct CStringIter<'a> {
    inner: &'a [u8],
}

impl<'a> View for StringIter<'a> {
    type V = Seq<u8>;

    /// The bytes that are left.
    closed spec fn view(&self) -> Seq<u8> {
        self.inner@
    }
}

impl<'a> View for CStringIter<'a> {
    type V = Seq<u8>;

    /// The bytes that are left.
    closed spec fn view(&self) -> Seq<u8> {
        self.inner@
    }
}

impl View for OwnedStringIter {
    type V = Seq<u8>;

    /// The bytes that are left.
    closed spec fn view(&self) -> Seq<u8> {
        if self.cursor <= self.inner@.len() {
            self.inner@.skip(self.cursor as int)
        } else {
            Seq::empty()
        }
    }
}

/// Finds the first terminator of what is left of a buffer.
fn find_terminator(bytes: &[u8]) -> (r: Option<usize>)
    ensures
        match r {
            Some(t) => t == terminator(bytes@) && t < bytes@.len(),
            None => split_first(bytes@) is None,
        },
{
    let mut i: usize = 0;
    while i < bytes.len()
        invariant
            i <= bytes.len(),
            forall|j: int| 0 <= j < i ==> bytes@[j] != 0u8,
        decreases bytes.len() - i,
    {
        if bytes[i] == 0 {
            proof {
                lemma_terminator_is(bytes@, i as int);
            }
            return Some(i);
        }
        i += 1;
    }
    proof {
        lemma_terminator_is(bytes@, i as int);
    }
    None
}

impl<'a> StringIter<'a> {
    /// The next string of the buffer as text, or `None` where no terminated
    /// string is left.
    pub fn next(&mut self) -> (r: Option<String>)
        ensures
            match split_first(old(self)@) {
                Some((head, rest)) => r matches Some(s) && s@ == text_of(head) && final(self)@
                    == rest,
                None => r is None && final(self)@ == old(self)@,
            },
    {
        match find_terminator(self.inner) {
            None => None,
            Some(t) => {
                let n = self.inner.len();
                let head = slice_subrange(self.inner, 0, t);
                let rest = slice_subrange(self.inner, t + 1, n);
                proof {
                    assert(head@ =~= self.inner@.take(t as int));
                    assert(rest@ =~= self.inner@.skip(t + 1));
                }
                self.inner = rest;
                Some(text_from_bytes(head))
            },
        }
    }
}

impl<'a> CStringIter<'a> {
    /// The next string of the buffer as a text for the engine, or `None`
    /// where no terminated string is left.
    pub fn next(&mut self) -> (r: Option<NativeString>)
        ensures
            match split_first(old(self)@) {
                Some((head, rest)) => r matches Some(s) && s@ == head && final(self)@ == rest,
                None => r is None && final(self)@ == old(self)@,
            },
    {
        match find_terminator(self.inner) {
            None => None,
            Some(t) => {
                let n = self.inner.len();
                let head = slice_subrange(self.inner, 0, t);
                let rest = slice_subrange(self.inner, t + 1, n);
                proof {
                    assert(head@ =~= self.inner@.take(t as int));
                    assert(rest@ =~= self.inner@.skip(t + 1));
                    lemma_split_first(self.inner@);
                }
                self.inner = rest;
                match NativeString::from_bytes(vstd::slice::slice_to_vec(head)) {
                    Ok(text) => Some(text),
                    Err(_) => None,
                }
            },
        }
    }
}

impl OwnedStringIter {
    /// The next string of the buffer as text, or `None` where no terminated
    /// string is left.
    pub fn next(&mut self) -> (r: Option<String>)
        ensures
            match split_first(old(self)@) {
                Some((head, rest)) => r matches Some(s) && s@ == text_of(head) && final(self)@
                    == rest,
                None => r is None && final(self)@ == old(self)@,
            },
    {
        if self.cursor > self.inner.len() {
            proof {
                lemma_split_of_unterminated(Seq::<u8>::empty());
            }
            return None;
        }
        let left = slice_subrange(self.inner.as_slice(), self.cursor, self.inner.len());
        proof {
            assert(left@ =~= self.inner@.skip(self.cursor as int));
        }
        match find_terminator(left) {
            None => None,
            Some(t) => {
                let head = slice_subrange(left, 0, t);
                let text = text_from_bytes(head);
                proof {
                    assert(head@ =~= left@.take(t as int));
                    assert(self.inner@.skip(self.cursor + t + 1) =~= left@.skip(t + 1));
                }
                self.cursor = self.cursor + t + 1;
                Some(text)
            },
        }
    }
}

impl StringBuffer {
    /// A buffer over bytes that the engine filled.
    pub fn new(bytes: Vec<u8>) -> (b: StringBuffer)
        ensures
            b@ == bytes@,
    {
        StringBuffer { bytes }
    }

    /// The buffer that holds the given texts back to back, each followed by
    /// its terminator.
    pub fn from_strings(strings: &[NativeString]) -> (b: StringBuffer)
        ensures
            b@ == wire(strings@.map_values(|s: NativeString| s@)),
    {
        let mut bytes: Vec<u8> = Vec::new();
        let ghost all = strings@.map_values(|s: NativeString| s@);
        let mut i: usize = strings.len();
        proof {
            assert(all.skip(i as int) =~= Seq::<Seq<u8>>::empty());
        }
        // The texts are laid out from the last to the first, each put in
        // front of what is there.
        while i > 0
            invariant
                i <= strings.len(),
                all == strings@.map_values(|s: NativeString| s@),
                bytes@ == wire(all.skip(i as int)),
            decreases i,
        {
            i -= 1;
            let mut next = strings[i].to_bytes_with_nul();
            proof {
                assert(all.skip(i as int)[0] == strings@[i as int]@);
                assert(all.skip(i as int).skip(1) =~= all.skip(i + 1));
            }
            next.append(&mut bytes);
            bytes = next;
        }
        proof {
            assert(all.skip(0) =~= all);
        }
        StringBuffer { bytes }
    }

    pub fn as_bytes(&self) -> (bytes: &[u8])
        ensures
            bytes@ == self@,
    {
        self.bytes.as_slice()
    }

    /// Walks the strings of the buffer as text.
    pub fn iter_str(&self) -> (it: StringIter<'_>)
        ensures
            it@ == self@,
    {
        StringIter { inner: self.bytes.as_slice() }
    }

    /// Walks the strings of the buffer as texts for the engine.
    pub fn iter_cstr(&self) -> (it: CStringIter<'_>)
        ensures
            it@ == self@,
    {
        CStringIter { inner: self.bytes.as_slice() }
    }

    /// Walks the strings of the buffer, which is given up.
    pub fn into_iter(self) -> (it: OwnedStringIter)
        ensures
            it@ == self@,
    {
        proof {
            assert(self.bytes@.skip(0) =~= self.bytes@);
        }
        OwnedStringIter { inner: self.bytes, cursor: 0 }
    }

    /// All strings of the buffer as text, in their order.
    pub fn to_strings(&self) -> (strings: Vec<String>)
        ensures
            texts(strings@) == split_terminated(self@).map_values(|b: Seq<u8>| text_of(b)),
            strings@.len() == split_terminated(self@).len(),
    {
        let mut out: Vec<String> = Vec::new();
        let mut it = self.iter_str();
        let ghost all = split_terminated(self@).map_values(|b: Seq<u8>| text_of(b));
        proof {
            assert(texts(out@) + split_terminated(it@).map_values(|b: Seq<u8>| text_of(b)) =~= all);
        }
        loop
            invariant
                all == split_terminated(self@).map_values(|b: Seq<u8>| text_of(b)),
                texts(out@) + split_terminated(it@).map_values(|b: Seq<u8>| text_of(b)) == all,
            ensures
                texts(out@) == all,
            decreases it@.len(),
        {
            proof {
                lemma_split_first(it@);
            }
            let ghost before = it@;
            let ghost done = out@;
            match it.next() {
                None => {
                    proof {
                        assert(texts(out@) + Seq::<Seq<char>>::empty() =~= texts(out@));
                    }
                    break ;
                },
                Some(s) => {
                    out.push(s);
                    proof {
                        let (head, rest) = split_first(before).unwrap();
                        let f = |b: Seq<u8>| text_of(b);
                        assert(split_terminated(before).map_values(f) =~= seq![text_of(head)]
                            + split_terminated(rest).map_values(f));
                        assert(texts(out@) =~= texts(done) + seq![text_of(head)]);
                        assert(texts(out@) + split_terminated(rest).map_values(f) =~= texts(done)
                            + split_terminated(before).map_values(f));
                    }
                },
            }
        }
        out
    }
}

/// One step of resolving a batch of handles. An empty batch ends at once with
/// an empty buffer, and no call is made. After the size query, a length that
/// is not positive ends with an empty buffer, and no fetch is made; any other
/// length is fetched exactly. The buffer that comes back is kept as far as
/// the length that was asked for.
pub fn get_string_buffer(handles: &[i32], session: NativeSession, reply: Reply<u8>) -> (r: Result<
    Step<StringCall, StringBuffer>,
    HapiError,
>)
    ensures
        match reply {
            Reply::Start => if handles@.len() == 0 {
                r matches Ok(Step::Done(b)) && b@.len() == 0
            } else {
                r matches Ok(Step::Call(StringCall::GetStringBatchSize { session: s, handles: h }))
                    && s == session && h@ == handles@
            },
            Reply::Size { code, length } => if code != 0 {
                r matches Err(e) && e@ == (ErrorModel {
                    kind: Kind::Hapi(classify(code as int)),
                    message: None,
                    session: Some(session),
                })
            } else if length <= 0 {
                r matches Ok(Step::Done(b)) && b@.len() == 0
            } else {
                r matches Ok(Step::Call(StringCall::GetStringBatch { session: s, length: n })) && s
                    == session && n == length
            },
            Reply::Data { code, length, values: bytes } => if code != 0 {
                r matches Err(e) && e@ == (ErrorModel {
                    kind: Kind::Hapi(classify(code as int)),
                    message: None,
                    session: Some(session),
                })
            } else {
                r matches Ok(Step::Done(b)) && b@ == prefix(bytes@, length as int)
            },
        },
{
    match reply {
        Reply::Start => {
            if handles.len() == 0 {
                Ok(Step::Done(StringBuffer::new(Vec::new())))
            } else {
                Ok(
                    Step::Call(
                        StringCall::GetStringBatchSize {
                            session,
                            handles: vstd::slice::slice_to_vec(handles),
                        },
                    ),
                )
            }
        },
        Reply::Size { code, length } => {
            match translate(code, Some(session), None) {
                Err(e) => Err(e),
                Ok(()) => {
                    if length > 0 {
                        Ok(Step::Call(StringCall::GetStringBatch { session, length }))
                    } else {
                        Ok(Step::Done(StringBuffer::new(Vec::new())))
                    }
                },
            }
        },
        Reply::Data { code, length, values: bytes } => {
            match translate(code, Some(session), None) {
                Err(e) => Err(e),
                Ok(()) => {
                    Ok(Step::Done(StringBuffer::new(keep(bytes, length))))
                },
            }
        },
    }
}

/// Resolving no handles gives no strings: the exchange ends at its start
/// with an empty buffer, which holds no string.
pub proof fn lemma_empty_batch()
    ensures
        split_terminated(Seq::<u8>::empty()) == Seq::<Seq<u8>>::empty(),
{
}

/// Where the engine answers a batch with one terminated string per handle,
/// the buffer splits into exactly those strings, as many as there are
/// handles and in the order of the handles.
pub proof fn lemma_batch_keeps_order(handles: Seq<i32>, answer: Seq<Seq<u8>>)
    requires
        handles.len() > 0,
        answer.len() == handles.len(),
        forall|i: int| 0 <= i < answer.len() ==> !has_nul(#[trigger] answer[i]),
    ensures
        split_terminated(wire(answer)) == answer,
        split_terminated(wire(answer)).len() == handles.len(),
        prefix(wire(answer), wire(answer).len() as int) == wire(answer),
{
    lemma_split_of_wire(answer);
}

} // verus!
