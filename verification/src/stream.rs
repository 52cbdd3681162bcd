//! Incremental framing of the raw connection byte stream.
//!
//! A `HttpMessageParser` owns the carry buffer of one connection: the
//! text received so far that has not yet been completed into a message
//! by a boundary marker.  Each pushed chunk is decoded as UTF-8 text,
//! appended to the carry, and the result is cut at every boundary
//! marker: the completed pieces come back as parsed messages, in stream
//! order, and the unterminated tail becomes the new carry.  No text is
//! ever dropped and no message is ever emitted twice.

use vstd::prelude::*;
use vstd::string::*;
use vstd::utf8::decode_utf8;
use vstd::utf8::encode_utf8;
use vstd::utf8::encode_utf8_decode_utf8;
use vstd::utf8::valid_utf8;

use crate::framing::delim_at;
use crate::framing::has_delim;
use crate::framing::lemma_delim_skip;
use crate::framing::lemma_first_delim_is;
use crate::framing::split_on_delim;
use crate::request::is_parse_of;
use crate::request::HttpMessage;

verus! {

/// A pushed chunk was not valid UTF-8 text.  This is fatal to the
/// connection it arrived on: the driver should close that connection
/// without attempting a response.
#[derive(Clone, Copy, PartialEq, Eq, Structural, Debug)]
pub struct EncodingError;

/// Relies on `core::str::from_utf8`: it returns `Ok` exactly when the
/// bytes are valid UTF-8, and the returned string is then backed by
/// those same bytes.
#[verifier::external_body]
fn decode_chunk(bytes: &[u8]) -> (r: Option<&str>)
    ensures
        r is Some <==> valid_utf8(bytes@),
        r matches Some(s) ==> s.spec_bytes() == bytes@,
{
    core::str::from_utf8(bytes).ok()
}

/// Pushing an empty chunk yields no messages and does not alter the
/// carry: an empty chunk decodes to empty text, and a carry holding no
/// boundary marker splits into just itself, so `push_bytes` emits
/// nothing and writes the carry back unchanged.
pub proof fn lemma_push_empty(carry: Seq<char>)
    requires
        !has_delim(carry),
    ensures
        ({
            let pieces = split_on_delim(carry + decode_utf8(Seq::<u8>::empty()));
            &&& pieces.len() == 1
            &&& pieces.last() == carry
        }),
{
    assert(decode_utf8(Seq::<u8>::empty()) =~= Seq::<char>::empty());
    assert(carry + decode_utf8(Seq::<u8>::empty()) =~= carry);
    crate::framing::lemma_split_no_delim(carry);
}

/// The stateful incremental framer of one connection.  Its carry
/// `buffer` holds text received but not yet resolved into a complete
/// message; after every successful push the carry contains no boundary
/// marker (it never holds a complete message).
pub struct HttpMessageParser {
    pub buffer: String,
}

impl HttpMessageParser {
    /// The framer's invariant: the carry never contains a complete
    /// message, that is, no boundary marker.
    pub open spec fn wf(&self) -> bool {
        !has_delim(self.buffer@)
    }

    /// A fresh framer with an empty carry buffer.
    pub fn new() -> (r: HttpMessageParser)
        ensures
            r.buffer@ =~= Seq::<char>::empty(),
            r.wf(),
    {
        HttpMessageParser { buffer: String::new() }
    }

    /// Feed one chunk of raw bytes.  When the chunk is valid UTF-8 text
    /// it is appended to the carry, every piece of the result that a
    /// boundary marker completes is returned as a parsed message (in
    /// the order the markers appeared), and the tail after the last
    /// marker replaces the carry.  A chunk that is not valid UTF-8
    /// leaves the carry untouched and reports an `EncodingError`.
    #[verifier::loop_isolation(false)]
    pub fn push_bytes(&mut self, bytes: &[u8]) -> (r: Result<Vec<HttpMessage>, EncodingError>)
        ensures
            ({
                let combined = old(self).buffer@ + decode_utf8(bytes@);
                let pieces = split_on_delim(combined);
                &&& (r is Ok <==> valid_utf8(bytes@))
                &&& (r is Err ==> final(self).buffer@ == old(self).buffer@)
                &&& (r matches Ok(msgs) ==> {
                    &&& msgs@.len() == pieces.len() - 1
                    &&& (forall|k: int|
                        0 <= k < msgs@.len() ==> is_parse_of(#[trigger] msgs@[k], pieces[k]))
                    &&& final(self).buffer@ == pieces.last()
                    &&& final(self).wf()
                })
            }),
    {
        let chunk = match decode_chunk(bytes) {
            None => {
                return Err(EncodingError);
            },
            Some(c) => c,
        };
        proof {
            broadcast use encode_utf8_decode_utf8;

            assert(decode_utf8(encode_utf8(chunk@)) == chunk@);
            assert(decode_utf8(bytes@) == chunk@);
        }
        let mut combined = self.buffer.clone();
        combined.append(chunk);
        let cs = combined.as_str();
        let n = cs.unicode_len();
        let ghost s = cs@;
        let mut msgs: Vec<HttpMessage> = Vec::new();
        let mut start: usize = 0;
        let mut i: usize = 0;
        proof {
            assert(s.skip(0) =~= s);
            assert(split_on_delim(s).take(0) =~~= Seq::<Seq<char>>::empty());
        }
        while n >= 4 && i <= n - 4
            invariant
                0 <= start <= i,
                i <= n,
                forall|j: int| start <= j < i ==> !delim_at(s, j),
                split_on_delim(s).len() == msgs@.len() + split_on_delim(
                    s.skip(start as int),
                ).len(),
                split_on_delim(s) =~~= split_on_delim(s).take(msgs@.len() as int)
                    + split_on_delim(s.skip(start as int)),
                forall|k: int|
                    0 <= k < msgs@.len() ==> is_parse_of(
                        #[trigger] msgs@[k],
                        split_on_delim(s)[k],
                    ),
            decreases n - i,
        {
            let c0 = cs.get_char(i);
            let c1 = cs.get_char(i + 1);
            let c2 = cs.get_char(i + 2);
            let c3 = cs.get_char(i + 3);
            if c0 == '\r' && c1 == '\n' && c2 == '\r' && c3 == '\n' {
                proof {
                    let rest = s.skip(start as int);
                    let k = i - start;
                    assert(delim_at(s, i as int));
                    lemma_delim_skip(s, start as int, k as int);
                    assert forall|j: int| 0 <= j < k implies !delim_at(rest, j) by {
                        lemma_delim_skip(s, start as int, j);
                    }
                    lemma_first_delim_is(rest, k as int);
                    assert(has_delim(rest));
                    assert(split_on_delim(rest) =~~= seq![rest.take(k as int)] + split_on_delim(
                        rest.skip(k as int + 4),
                    ));
                    assert(rest.take(k as int) =~= s.subrange(start as int, i as int));
                    assert(rest.skip(k as int + 4) =~= s.skip(i as int + 4));
                }
                let piece = cs.substring_char(start, i);
                let msg = HttpMessage::create_from_str(piece);
                proof {
                    let m = msgs@.len() as int;
                    let pieces = split_on_delim(s);
                    assert(pieces[m] == s.subrange(start as int, i as int));
                    assert(pieces.take(m + 1) =~~= pieces.take(m) + seq![
                        s.subrange(start as int, i as int),
                    ]);
                }
                msgs.push(msg);
                start = i + 4;
                i = i + 4;
            } else {
                i += 1;
            }
        }
        proof {
            let rest = s.skip(start as int);
            assert forall|j: int| !delim_at(rest, j) by {
                if delim_at(rest, j) {
                    lemma_delim_skip(s, start as int, j);
                }
            }
            assert(!has_delim(rest));
            assert(split_on_delim(rest) =~~= seq![rest]);
            let m = msgs@.len() as int;
            let pieces = split_on_delim(s);
            assert(pieces.len() == m + 1);
            assert(pieces =~~= pieces.take(m) + seq![rest]);
            assert(pieces.take(m).len() == m);
            assert(pieces.last() == rest);
        }
        let tail = cs.substring_char(start, n);
        let tail_string = tail.to_owned();
        self.buffer = tail_string;
        Ok(msgs)
    }
}

} // verus!
