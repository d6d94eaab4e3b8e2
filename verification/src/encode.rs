use vstd::prelude::*;

use crate::numfmt::dec_str;
use crate::screen::MAX_HEIGHT;
use crate::screen::MAX_WIDTH;
use crate::screen::Screen;
use crate::screen::render;
use crate::screen::render_upto;

verus! {

/// Bytes of the Windows-1252 encoding of a string, with unmappable
/// characters replaced by decimal numeric character references; a
/// function of the characters alone.
pub uninterp spec fn windows1252_bytes(s: Seq<char>) -> Seq<u8>;

/// Relies on encoding_rs's `Encoding::encode` for WINDOWS_1252: the
/// string transcoded into the legacy single-byte codepage, substituting
/// numeric character references for unmappable characters. The result
/// depends on the input characters alone; an empty input encodes to no
/// bytes. The encoder panics only when its worst-case buffer size
/// overflows `usize`, which the length bound rules out.
#[verifier::external_body]
fn encode_windows1252(s: &str) -> (r: Vec<u8>)
    requires
        s@.len() <= 0x100000000,
    ensures
        r@ == windows1252_bytes(s@),
        s@.len() == 0 ==> r@.len() == 0,
{
    let (bytes, _, _) = encoding_rs::WINDOWS_1252.encode(s);
    bytes.into_owned()
}

/// A very loose but sufficient bound: no decimal rendering is longer than
/// the number plus one.
pub proof fn lemma_dec_str_len_loose(n: nat)
    ensures
        dec_str(n).len() <= n + 1,
    decreases n,
{
    if n >= 10 {
        lemma_dec_str_len_loose((n / 10) as nat);
    }
}

/// The serialized page never outgrows a fixed budget: each cell emits at
/// most its character, a line break, and an escape of at most 259
/// characters (two for the introducer, at most 256 for the decimal color,
/// one terminator).
pub proof fn lemma_render_len(chars: Seq<char>, colors: Seq<u8>, n: int)
    requires
        0 <= n,
        forall|i: int| 0 <= i < colors.len() ==> colors[i] <= 255,
    ensures
        render_upto(chars, colors, n).len() <= n * 261,
    decreases n,
{
    if n > 0 {
        lemma_render_len(chars, colors, n - 1);
        lemma_dec_str_len_loose(colors[n - 1] as nat);
    }
}

/// Serialize the page and transcode it for the legacy consumer of the
/// output file, in one verified step.
pub fn print_encoded(screen: &Screen) -> (r: Vec<u8>)
    requires
        screen.wf(),
    ensures
        r@ == windows1252_bytes(render(screen@.0, screen@.1)),
{
    let out = screen.print();
    proof {
        assert forall|i: int| 0 <= i < screen@.1.len() implies screen@.1[i] <= 255 by {}
        lemma_render_len(screen@.0, screen@.1, (MAX_WIDTH * MAX_HEIGHT) as int);
    }
    encode_windows1252(out.as_str())
}

} // verus!
