//! The image's bytes: a short text repeated end to end and cut to size.

use vstd::arithmetic::div_mod::{lemma_mod_multiples_vanish, lemma_small_mod};
use vstd::prelude::*;
use vstd::string::{is_ascii_spec_bytes, StringSliceAdditionalSpecFns};

verus! {

/// The number of bytes in the image.
pub const IMAGE_SIZE: usize = 512;

/// The text that fills the image.
pub open spec fn image_text() -> Seq<char> {
    "secret data\n"@
}

/// The bytes of the text that fills the image, one per character.
pub open spec fn image_pattern() -> Seq<u8> {
    Seq::new(image_text().len(), |i: int| image_text()[i] as u8)
}

/// `pattern` laid end to end `count` times: the byte at `i` is the byte of
/// `pattern` at `i` modulo its length.
pub open spec fn repeated(pattern: Seq<u8>, count: nat) -> Seq<u8> {
    Seq::new(count * pattern.len(), |i: int| pattern[i % (pattern.len() as int)])
}

/// The image: the first `IMAGE_SIZE` bytes of the pattern repeated without end.
pub open spec fn image_payload() -> Seq<u8> {
    Seq::new(
        IMAGE_SIZE as nat,
        |i: int| image_pattern()[i % (image_pattern().len() as int)],
    )
}

/// One more copy of `pattern` behind `count` copies makes `count + 1` copies.
pub proof fn lemma_repeated_step(pattern: Seq<u8>, count: nat)
    ensures
        repeated(pattern, count) + pattern =~= repeated(pattern, count + 1),
{
    let n = pattern.len() as int;
    let before = repeated(pattern, count);
    let after = repeated(pattern, count + 1);
    assert(after.len() == before.len() + n) by (nonlinear_arith)
        requires
            after.len() == (count + 1) * n,
            before.len() == count * n,
    ;
    assert forall|i: int| 0 <= i < after.len() implies (before + pattern)[i] == after[i] by {
        if i >= before.len() {
            let j = i - before.len();
            lemma_mod_multiples_vanish(count as int, j, n);
            lemma_small_mod(j as nat, n as nat);
            assert(n * count + j == i) by (nonlinear_arith)
                requires
                    j == i - count * n,
            ;
        }
    }
}

/// The text that fills the image has twelve characters, all of them ASCII.
pub proof fn lemma_image_pattern()
    ensures
        image_pattern().len() == 12,
        image_pattern() == "secret data\n".spec_bytes(),
        forall|i: int| 0 <= i < 12 ==> image_pattern()[i] == image_text()[i] as u8,
{
    reveal_strlit("secret data\n");
    is_ascii_spec_bytes("secret data\n");
    assert(vstd::string::is_ascii("secret data\n")) by {
        assert forall|i: int| 0 <= i < "secret data\n"@.len() implies ("secret data\n"@[i] as u32)
            < 128 by {}
    }
}

/// Lays `pattern` end to end `count` times.
pub fn repeat_bytes(pattern: &[u8], count: usize) -> (out: Vec<u8>)
    requires
        count * pattern@.len() <= usize::MAX,
    ensures
        out@ == repeated(pattern@, count as nat),
        out@.len() == count * pattern@.len(),
{
    let mut out: Vec<u8> = Vec::new();
    let mut done: usize = 0;
    assert(out@ =~= repeated(pattern@, 0));
    while done < count
        invariant
            done <= count,
            out@ == repeated(pattern@, done as nat),
        decreases count - done,
    {
        out.extend_from_slice(pattern);
        proof {
            lemma_repeated_step(pattern@, done as nat);
        }
        done += 1;
    }
    out
}

/// The image's bytes, made anew on each call.
pub fn image_bytes() -> (body: Vec<u8>)
    ensures
        body@ == image_payload(),
        body@.len() == IMAGE_SIZE,
{
    let image_content: &[u8] = "secret data\n".as_bytes();
    proof {
        lemma_image_pattern();
    }
    let mut body_bytes = repeat_bytes(image_content, 1 + IMAGE_SIZE / image_content.len());
    body_bytes.truncate(IMAGE_SIZE);
    assert(body_bytes@ =~= image_payload());
    body_bytes
}

} // verus!
