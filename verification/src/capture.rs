//! The screen capture and its live preview: the cursor setting, the size of
//! the preview, and the multipart framing of preview frames.
use vstd::prelude::*;
use vstd::utf8::encode_utf8;

verus! {

/// How the screen cast portal is asked to show the pointer.
#[derive(Clone, Copy, Debug, PartialEq, Eq, Structural)]
pub enum CursorChoice {
    /// Drawn into the captured frames.
    Embedded,
    /// Left out of the captured frames.
    Hidden,
}

/// The cursor setting asked of the portal.
pub fn cursor_choice(show_cursor: bool) -> (c: CursorChoice)
    ensures
        c == (if show_cursor { CursorChoice::Embedded } else { CursorChoice::Hidden }),
{
    if show_cursor {
        CursorChoice::Embedded
    } else {
        CursorChoice::Hidden
    }
}

/// The largest preview width kept as is.
pub const PREVIEW_MAX_WIDTH: i32 = 1280;

/// The largest preview height kept as is.
pub const PREVIEW_MAX_HEIGHT: i32 = 720;

/// Whether a stream of this size is scaled down for the preview.
pub open spec fn needs_downscale(width: int, height: int) -> bool {
    width > PREVIEW_MAX_WIDTH || height > PREVIEW_MAX_HEIGHT
}

/// `(v / 2) * 2` with Rust's division, which rounds toward zero: the even
/// number next to `v` on the side of zero.
pub open spec fn even_toward_zero(v: int) -> int {
    if v >= 0 {
        v - v % 2
    } else {
        v + (-v) % 2
    }
}

/// Whether a stream of this size is scaled down for the preview.
pub fn preview_needs_downscale(width: i32, height: i32) -> (b: bool)
    ensures
        b == needs_downscale(width as int, height as int),
{
    width > PREVIEW_MAX_WIDTH || height > PREVIEW_MAX_HEIGHT
}

/// Rounds a dimension to an even number, toward zero.
pub fn even_dimension(v: i32) -> (r: i32)
    ensures
        r as int == even_toward_zero(v as int),
{
    let w: i64 = v as i64;
    if w >= 0 {
        (w - w % 2) as i32
    } else {
        let n: i64 = -w;
        (w + n % 2) as i32
    }
}

/// The size of the preview: 1280x720 when the stream has no known size; the
/// stream's size when it fits in 1280x720; else the size it was scaled to,
/// `fitted`. Either is then rounded to even numbers.
pub open spec fn preview_size_of(size: Option<(i32, i32)>, fitted: Option<(i32, i32)>) -> (int, int) {
    match size {
        None => (PREVIEW_MAX_WIDTH as int, PREVIEW_MAX_HEIGHT as int),
        Some((w, h)) => if needs_downscale(w as int, h as int) {
            match fitted {
                Some((fw, fh)) => (even_toward_zero(fw as int), even_toward_zero(fh as int)),
                None => (0, 0),
            }
        } else {
            (even_toward_zero(w as int), even_toward_zero(h as int))
        },
    }
}

/// Computes the size of the preview. The scaled size of a stream too large
/// for 1280x720 is computed by the caller and given as
/// `fitted`.
pub fn preview_dimensions(size: Option<(i32, i32)>, fitted: Option<(i32, i32)>) -> (r: (i32, i32))
    requires
        size matches Some((w, h)) && needs_downscale(w as int, h as int) ==> fitted is Some,
    ensures
        (r.0 as int, r.1 as int) == preview_size_of(size, fitted),
{
    match size {
        None => (PREVIEW_MAX_WIDTH, PREVIEW_MAX_HEIGHT),
        Some((w, h)) => {
            if preview_needs_downscale(w, h) {
                let (fw, fh) = fitted.unwrap();
                (even_dimension(fw), even_dimension(fh))
            } else {
                (even_dimension(w), even_dimension(h))
            }
        },
    }
}

/// The header of one part of the preview stream.
pub open spec fn frame_header() -> Seq<u8> {
    encode_utf8("--frame\r\nContent-Type: image/jpeg\r\n\r\n"@)
}

/// The bytes that end one part of the preview stream.
pub open spec fn frame_trailer() -> Seq<u8> {
    encode_utf8("\r\n"@)
}

/// The media type of the preview stream.
pub fn preview_content_type() -> (t: &'static str)
    ensures
        t@ == "multipart/x-mixed-replace; boundary=frame"@,
{
    "multipart/x-mixed-replace; boundary=frame"
}

fn append_bytes(buf: &mut Vec<u8>, more: &[u8])
    ensures
        final(buf)@ == old(buf)@ + more@,
{
    let mut i: usize = 0;
    while i < more.len()
        invariant
            i <= more@.len(),
            buf@ == old(buf)@ + more@.take(i as int),
        decreases more@.len() - i,
    {
        buf.push(more[i]);
        proof {
            assert(more@.take(i + 1) =~= more@.take(i as int).push(more@[i as int]));
        }
        i = i + 1;
    }
    proof {
        assert(more@.take(i as int) =~= more@);
    }
}

/// Frames one JPEG image as a part of the multipart preview stream.
pub fn frame_part(frame: &[u8]) -> (part: Vec<u8>)
    ensures
        part@ == frame_header() + frame@ + frame_trailer(),
{
    let mut part: Vec<u8> = Vec::new();
    append_bytes(&mut part, "--frame\r\nContent-Type: image/jpeg\r\n\r\n".as_bytes());
    append_bytes(&mut part, frame);
    append_bytes(&mut part, "\r\n".as_bytes());
    proof {
        assert(Seq::<u8>::empty() + frame_header() =~= frame_header());
    }
    part
}

/// The image can be read back from its part: it stands between the header
/// and the trailer.
pub proof fn law_frame_part_holds_frame(frame: Seq<u8>)
    ensures
        ({
            let part = frame_header() + frame + frame_trailer();
            part.subrange(frame_header().len() as int, part.len() - frame_trailer().len()) == frame
        }),
{
    let part = frame_header() + frame + frame_trailer();
    assert(part.subrange(frame_header().len() as int, part.len() - frame_trailer().len()) =~= frame);
}

/// The sides of the preview are always even; a stream that fits in
/// 1280x720 is previewed at its own size or one less per side, never larger.
pub proof fn law_preview_size(size: Option<(i32, i32)>, fitted: Option<(i32, i32)>)
    ensures
        preview_size_of(size, fitted).0 % 2 == 0,
        preview_size_of(size, fitted).1 % 2 == 0,
        forall|w: i32, h: i32|
            size == Some((w, h)) && !needs_downscale(w as int, h as int) && 0 <= w && 0 <= h ==> {
                let p = preview_size_of(size, fitted);
                &&& w - 1 <= p.0 <= w <= PREVIEW_MAX_WIDTH
                &&& h - 1 <= p.1 <= h <= PREVIEW_MAX_HEIGHT
            },
{
}


/// Rounding to even moves a dimension at most one step toward zero.
pub proof fn law_even_toward_zero(v: int)
    ensures
        even_toward_zero(v) % 2 == 0,
        v >= 0 ==> v - 1 <= even_toward_zero(v) <= v,
        v < 0 ==> v <= even_toward_zero(v) <= v + 1,
{
}

/// The preview size: 1280x720 without a known stream size; the stream's own
/// size, rounded down to even, when it fits; else the fitted size, rounded
/// down to even. The preview never grows past what it is given.
pub proof fn law_preview_follows_input(size: Option<(i32, i32)>, fitted: Option<(i32, i32)>)
    ensures
        size is None ==> preview_size_of(size, fitted) == (1280int, 720int),
        forall|w: i32, h: i32, fw: i32, fh: i32|
            size == Some((w, h)) && needs_downscale(w as int, h as int) && fitted == Some((fw, fh))
                && fw >= 0 && fh >= 0 ==> {
                let p = preview_size_of(size, fitted);
                &&& fw - 1 <= p.0 <= fw
                &&& fh - 1 <= p.1 <= fh
            },
        forall|w: i32, h: i32|
            size == Some((w, h)) && !needs_downscale(w as int, h as int) && w >= 0 && h >= 0 ==> {
                let p = preview_size_of(size, fitted);
                &&& w - 1 <= p.0 <= w
                &&& h - 1 <= p.1 <= h
            },
        forall|w: i32, h: i32| size == Some((w, h)) ==> (needs_downscale(w as int, h as int) <==> (w > 1280 || h > 720)),
{
}

} // verus!
