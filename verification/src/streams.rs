//! Streaming authenticated encryption of whole byte buffers.
//!
//! The stream layout is a fixed header followed by tagged ciphertext
//! chunks: every chunk but the last seals exactly `PLAINTEXT_CHUNK`
//! plaintext bytes, and the last chunk — always emitted, even for empty
//! input — seals the remainder under the distinguished final tag, so
//! truncation at a chunk boundary is detectable.

use vstd::arithmetic::div_mod::lemma_fundamental_div_mod_converse;
use vstd::prelude::*;
use vstd::slice::slice_subrange;

use crate::error::Error;
use crate::masterkey::MasterKey;
use crate::sodium::{
    header_accepts, pull_of, pull_state_model, stream_init_pull, stream_init_push, stream_pull,
    stream_push, CIPHERTEXT_CHUNK, PLAINTEXT_CHUNK, STREAM_HEADER_SIZE, TAG_OVERHEAD,
};

verus! {

/// Length of the ciphertext body (everything after the header) that
/// encrypting `n` plaintext bytes produces: one full chunk per
/// `PLAINTEXT_CHUNK` bytes, and a final chunk for the remainder.
pub open spec fn enc_body_len(n: int) -> int {
    (n / (PLAINTEXT_CHUNK as int)) * (CIPHERTEXT_CHUNK as int) + (n % (PLAINTEXT_CHUNK as int))
        + (TAG_OVERHEAD as int)
}

/// Total length of the ciphertext stream for `n` plaintext bytes.
pub open spec fn stream_len(n: int) -> int {
    (STREAM_HEADER_SIZE as int) + enc_body_len(n)
}

/// How many chunks a ciphertext body of `body` bytes is read as: full
/// `CIPHERTEXT_CHUNK` chunks, plus one for a trailing remainder.
pub open spec fn pulled_chunks(body: int) -> int {
    if body % (CIPHERTEXT_CHUNK as int) == 0 {
        body / (CIPHERTEXT_CHUNK as int)
    } else {
        body / (CIPHERTEXT_CHUNK as int) + 1
    }
}

/// The plaintext length recovered from a ciphertext body of `body`
/// bytes: the body minus one authenticator per chunk.
pub open spec fn plain_len_of(body: int) -> int {
    body - pulled_chunks(body) * (TAG_OVERHEAD as int)
}

/// Decryption inverts encryption's framing: the ciphertext body
/// produced for `n` plaintext bytes reads back as exactly `n` bytes of
/// plaintext, and its final chunk is always a proper trailing remainder
/// (at least an authenticator, shorter than a full chunk).
pub proof fn lemma_stream_round_trip_len(n: int)
    requires
        n >= 0,
    ensures
        plain_len_of(enc_body_len(n)) == n,
        enc_body_len(n) % (CIPHERTEXT_CHUNK as int) >= TAG_OVERHEAD,
{
    let pc = PLAINTEXT_CHUNK as int;
    let cc = CIPHERTEXT_CHUNK as int;
    let a = TAG_OVERHEAD as int;
    let q = n / pc;
    let rem = n % pc;
    vstd::arithmetic::div_mod::lemma_fundamental_div_mod(n, pc);
    vstd::arithmetic::div_mod::lemma_mod_bound(n, pc);
    vstd::arithmetic::div_mod::lemma_div_pos_is_pos(n, pc);
    let body = enc_body_len(n);
    assert(body == q * cc + rem + a);
    assert(0 <= rem + a < cc);
    lemma_fundamental_div_mod_converse(body, cc, q, rem + a);
    assert(body % cc == rem + a);
    assert(pulled_chunks(body) == q + 1);
    assert(plain_len_of(body) == body - (q + 1) * a);
    assert(body - (q + 1) * a == q * pc + rem) by (nonlinear_arith)
        requires
            body == q * cc + rem + a,
            cc == pc + a,
    ;
    assert(q * pc + rem == n);
}

/// Encrypt a whole buffer: write the stream header, seal every full
/// `PLAINTEXT_CHUNK` bytes as a message chunk, and seal the remainder —
/// possibly empty — as the final chunk. On success the output length is
/// exactly `stream_len` of the input length; the primitive reporting
/// failure is the only error.
pub fn encrypt(key: &MasterKey, plaintext: &Vec<u8>) -> (r: Result<Vec<u8>, Error>)
    requires
        key.wf(),
        stream_len(plaintext@.len() as int) <= usize::MAX,
    ensures
        match r {
            Ok(c) => c@.len() == stream_len(plaintext@.len() as int),
            Err(e) => e == Error::WrapFailed,
        },
{
    let n = plaintext.len();
    let (mut st, mut out) = match stream_init_push(key.raw()) {
        Ok(p) => p,
        Err(_) => {
            return Err(Error::WrapFailed);
        },
    };
    let mut pos: usize = 0;
    let ghost mut k: int = 0;
    loop
        invariant
            n == plaintext@.len(),
            stream_len(n as int) <= usize::MAX,
            0 <= k,
            pos == k * (PLAINTEXT_CHUNK as int),
            pos <= n,
            out@.len() == (STREAM_HEADER_SIZE as int) + k * (CIPHERTEXT_CHUNK as int),
        decreases n - pos,
    {
        let remaining = n - pos;
        if remaining < PLAINTEXT_CHUNK {
            let chunk = slice_subrange(plaintext.as_slice(), pos, n);
            let mut sealed = match stream_push(&mut st, chunk, true) {
                Ok(c) => c,
                Err(_) => {
                    return Err(Error::WrapFailed);
                },
            };
            out.append(&mut sealed);
            proof {
                lemma_fundamental_div_mod_converse(
                    n as int,
                    PLAINTEXT_CHUNK as int,
                    k,
                    remaining as int,
                );
            }
            return Ok(out);
        }
        let chunk = slice_subrange(plaintext.as_slice(), pos, pos + PLAINTEXT_CHUNK);
        let mut sealed = match stream_push(&mut st, chunk, false) {
            Ok(c) => c,
            Err(_) => {
                return Err(Error::WrapFailed);
            },
        };
        out.append(&mut sealed);
        proof {
            assert((k + 1) * (PLAINTEXT_CHUNK as int) == k * (PLAINTEXT_CHUNK as int)
                + (PLAINTEXT_CHUNK as int)) by (nonlinear_arith);
            assert((k + 1) * (CIPHERTEXT_CHUNK as int) == k * (CIPHERTEXT_CHUNK as int)
                + (CIPHERTEXT_CHUNK as int)) by (nonlinear_arith);
            k = k + 1;
        }
        pos = pos + PLAINTEXT_CHUNK;
    }
}

/// A plaintext prefix joined onto the rest of a decryption outcome.
pub open spec fn prepend_plain(prefix: Seq<u8>, rest: Result<Seq<u8>, Error>) -> Result<
    Seq<u8>,
    Error,
> {
    match rest {
        Result::Ok(m) => Result::Ok(prefix + m),
        Result::Err(e) => Result::Err(e),
    }
}

/// What decrypting the remaining ciphertext body yields, on a pull
/// stream that has already taken the chunks `taken`: chunks of
/// `CIPHERTEXT_CHUNK` bytes (the last possibly shorter) are opened in
/// order until the final tag. An exhausted body without a final tag is
/// `Truncated`; a trailing piece too short for its authenticator is
/// `Corrupt`; a chunk the stream rejects is `AuthFailure`; a final tag
/// before the input's end is `Corrupt`; the final chunk at the input's
/// end yields the concatenated plaintexts.
pub open spec fn decrypt_walk(
    key: Seq<u8>,
    header: Seq<u8>,
    taken: Seq<Seq<u8>>,
    body: Seq<u8>,
) -> Result<Seq<u8>, Error>
    decreases body.len(),
{
    if body.len() == 0 {
        Result::Err(Error::Truncated)
    } else if body.len() < TAG_OVERHEAD {
        Result::Err(Error::Corrupt)
    } else {
        let n = if body.len() < CIPHERTEXT_CHUNK {
            body.len() as int
        } else {
            CIPHERTEXT_CHUNK as int
        };
        let chunk = body.take(n);
        match pull_of(key, header, taken, chunk) {
            Option::None => Result::Err(Error::AuthFailure),
            Option::Some(p) => {
                if p.1 {
                    if n == body.len() {
                        Result::Ok(p.0)
                    } else {
                        Result::Err(Error::Corrupt)
                    }
                } else if n == CIPHERTEXT_CHUNK {
                    prepend_plain(p.0, decrypt_walk(key, header, taken.push(chunk), body.skip(n)))
                } else {
                    Result::Err(Error::Truncated)
                }
            },
        }
    }
}

/// What decrypting a whole input yields: `CorruptHeader` for an input
/// shorter than a header or one whose header the stream rejects, else
/// the chunk walk over the body.
pub open spec fn decrypt_spec(key: Seq<u8>, input: Seq<u8>) -> Result<Seq<u8>, Error> {
    if input.len() < STREAM_HEADER_SIZE {
        Result::Err(Error::CorruptHeader)
    } else if !header_accepts(input.take(STREAM_HEADER_SIZE as int), key) {
        Result::Err(Error::CorruptHeader)
    } else {
        decrypt_walk(
            key,
            input.take(STREAM_HEADER_SIZE as int),
            Seq::empty(),
            input.skip(STREAM_HEADER_SIZE as int),
        )
    }
}

/// Prepending nothing changes nothing.
proof fn lemma_prepend_empty(rest: Result<Seq<u8>, Error>)
    ensures
        prepend_plain(Seq::<u8>::empty(), rest) == rest,
{
    match rest {
        Result::Ok(m) => {
            assert(Seq::<u8>::empty() + m =~= m);
        },
        Result::Err(_) => {},
    }
}

/// Prepending twice is prepending the concatenation.
proof fn lemma_prepend_assoc(a: Seq<u8>, b: Seq<u8>, rest: Result<Seq<u8>, Error>)
    ensures
        prepend_plain(a, prepend_plain(b, rest)) == prepend_plain(a + b, rest),
{
    match rest {
        Result::Ok(m) => {
            assert(a + (b + m) =~= (a + b) + m);
        },
        Result::Err(_) => {},
    }
}

/// Decrypt a whole ciphertext stream: read the header, then open chunks
/// of `CIPHERTEXT_CHUNK` bytes (the last possibly shorter) until the
/// final tag. The result equals `decrypt_spec` of the key and input —
/// success is owed exactly when the stream's header and every chunk
/// accept and the final tag closes the input — and on success the whole
/// input was consumed and the output length is exactly `plain_len_of`
/// the body.
pub fn decrypt(key: &MasterKey, ciphertext: &Vec<u8>) -> (r: Result<Vec<u8>, Error>)
    requires
        key.wf(),
    ensures
        ciphertext@.len() < STREAM_HEADER_SIZE ==> r == Err::<Vec<u8>, Error>(Error::CorruptHeader),
        match r {
            Ok(m) => {
                let body = ciphertext@.len() - (STREAM_HEADER_SIZE as int);
                &&& decrypt_spec(key@, ciphertext@) == Result::<Seq<u8>, Error>::Ok(m@)
                &&& body >= TAG_OVERHEAD
                &&& (body % (CIPHERTEXT_CHUNK as int) == 0 || body % (CIPHERTEXT_CHUNK as int)
                    >= TAG_OVERHEAD)
                &&& m@.len() == plain_len_of(body)
            },
            Err(e) => {
                &&& decrypt_spec(key@, ciphertext@) == Result::<Seq<u8>, Error>::Err(e)
                &&& (e == Error::CorruptHeader || e == Error::Truncated || e == Error::Corrupt
                    || e == Error::AuthFailure)
            },
        },
{
    let len = ciphertext.len();
    if len < STREAM_HEADER_SIZE {
        return Err(Error::CorruptHeader);
    }
    let header = slice_subrange(ciphertext.as_slice(), 0, STREAM_HEADER_SIZE);
    let ghost hseq = ciphertext@.take(STREAM_HEADER_SIZE as int);
    let ghost body = ciphertext@.skip(STREAM_HEADER_SIZE as int);
    proof {
        assert(header@ =~= hseq);
    }
    let mut st = match stream_init_pull(header, key.raw()) {
        Ok(s) => s,
        Err(_) => {
            return Err(Error::CorruptHeader);
        },
    };
    let mut out: Vec<u8> = Vec::new();
    let mut pos: usize = STREAM_HEADER_SIZE;
    let ghost mut k: int = 0;
    let ghost mut taken: Seq<Seq<u8>> = Seq::empty();
    proof {
        assert(body.skip(0) =~= body);
        lemma_prepend_empty(decrypt_walk(key@, hseq, taken, body));
    }
    loop
        invariant
            len == ciphertext@.len(),
            STREAM_HEADER_SIZE <= len,
            hseq == ciphertext@.take(STREAM_HEADER_SIZE as int),
            body == ciphertext@.skip(STREAM_HEADER_SIZE as int),
            header_accepts(hseq, key@),
            0 <= k,
            pos == (STREAM_HEADER_SIZE as int) + k * (CIPHERTEXT_CHUNK as int),
            pos <= len,
            out@.len() == k * (PLAINTEXT_CHUNK as int),
            pull_state_model(st) == (key@, hseq, taken),
            decrypt_walk(key@, hseq, Seq::<Seq<u8>>::empty(), body) == prepend_plain(
                out@,
                decrypt_walk(key@, hseq, taken, body.skip(pos - (STREAM_HEADER_SIZE as int))),
            ),
        decreases len - pos,
    {
        let ghost rem = body.skip(pos - (STREAM_HEADER_SIZE as int));
        let remaining = len - pos;
        proof {
            assert(rem.len() == remaining);
        }
        if remaining == 0 {
            return Err(Error::Truncated);
        }
        if remaining < TAG_OVERHEAD {
            return Err(Error::Corrupt);
        }
        let chunk_len = if remaining < CIPHERTEXT_CHUNK {
            remaining
        } else {
            CIPHERTEXT_CHUNK
        };
        let chunk = slice_subrange(ciphertext.as_slice(), pos, pos + chunk_len);
        proof {
            assert(chunk@ =~= rem.take(chunk_len as int));
        }
        match stream_pull(st, chunk) {
            Err(_) => {
                return Err(Error::AuthFailure);
            },
            Ok((mut plain, is_final, next)) => {
                st = next;
                let ghost out_old = out@;
                let ghost plain_view = plain@;
                out.append(&mut plain);
                pos = pos + chunk_len;
                if is_final {
                    if pos == len {
                        proof {
                            lemma_decrypt_final_len(
                                len as int,
                                k,
                                chunk_len as int,
                                out@.len() as int,
                            );
                        }
                        return Ok(out);
                    }
                    return Err(Error::Corrupt);
                }
                if chunk_len < CIPHERTEXT_CHUNK {
                    // A short chunk can only be the last; without the
                    // final tag the stream ended early.
                    return Err(Error::Truncated);
                }
                proof {
                    assert(decrypt_walk(key@, hseq, taken, rem) == prepend_plain(
                        plain_view,
                        decrypt_walk(key@, hseq, taken.push(chunk@), rem.skip(chunk_len as int)),
                    ));
                    lemma_prepend_assoc(
                        out_old,
                        plain_view,
                        decrypt_walk(key@, hseq, taken.push(chunk@), rem.skip(chunk_len as int)),
                    );
                    assert(rem.skip(chunk_len as int) =~= body.skip(
                        pos - (STREAM_HEADER_SIZE as int),
                    ));
                    taken = taken.push(chunk@);
                    assert((k + 1) * (CIPHERTEXT_CHUNK as int) == k * (CIPHERTEXT_CHUNK as int)
                        + (CIPHERTEXT_CHUNK as int)) by (nonlinear_arith);
                    assert((k + 1) * (PLAINTEXT_CHUNK as int) == k * (PLAINTEXT_CHUNK as int)
                        + (PLAINTEXT_CHUNK as int)) by (nonlinear_arith);
                    k = k + 1;
                }
            },
        }
    }
}

/// Arithmetic for `decrypt`'s success case: after `k` full chunks and a
/// trailing chunk of `last` bytes that ends the input, the output
/// length is exactly `plain_len_of` the body, and the body's remainder
/// modulo a full chunk is either zero or at least an authenticator.
proof fn lemma_decrypt_final_len(len: int, k: int, last: int, out_len: int)
    requires
        0 <= k,
        TAG_OVERHEAD <= last <= CIPHERTEXT_CHUNK,
        len == (STREAM_HEADER_SIZE as int) + k * (CIPHERTEXT_CHUNK as int) + last,
        out_len == k * (PLAINTEXT_CHUNK as int) + last - (TAG_OVERHEAD as int),
    ensures
        len - (STREAM_HEADER_SIZE as int) >= TAG_OVERHEAD,
        (len - (STREAM_HEADER_SIZE as int)) % (CIPHERTEXT_CHUNK as int) == 0 || (len
            - (STREAM_HEADER_SIZE as int)) % (CIPHERTEXT_CHUNK as int) >= TAG_OVERHEAD,
        out_len == plain_len_of(len - (STREAM_HEADER_SIZE as int)),
{
    let cc = CIPHERTEXT_CHUNK as int;
    let pc = PLAINTEXT_CHUNK as int;
    let a = TAG_OVERHEAD as int;
    let body = len - (STREAM_HEADER_SIZE as int);
    assert(body == k * cc + last);
    assert(k * cc >= 0) by (nonlinear_arith)
        requires
            0 <= k,
            cc == CIPHERTEXT_CHUNK as int,
    ;
    if last == cc {
        assert(body == (k + 1) * cc) by (nonlinear_arith)
            requires
                body == k * cc + last,
                last == cc,
        ;
        lemma_fundamental_div_mod_converse(body, cc, k + 1, 0);
        assert(body % cc == 0);
        assert(pulled_chunks(body) == k + 1);
        assert(plain_len_of(body) == body - (k + 1) * a);
        assert(body - (k + 1) * a == out_len) by (nonlinear_arith)
            requires
                body == k * cc + last,
                last == cc,
                cc == pc + a,
                out_len == k * pc + last - a,
        ;
    } else {
        lemma_fundamental_div_mod_converse(body, cc, k, last);
        assert(body % cc == last);
        assert(pulled_chunks(body) == k + 1);
        assert(plain_len_of(body) == body - (k + 1) * a);
        assert(body - (k + 1) * a == out_len) by (nonlinear_arith)
            requires
                body == k * cc + last,
                cc == pc + a,
                out_len == k * pc + last - a,
        ;
    }
}

} // verus!
