//! The command line of the video encoder.
//!
//! Frames are written as raw `rgb24` pixels to the standard input of `ffmpeg`,
//! which encodes them at 30 frames per second with `libx264` into a `yuv420p`
//! video.  The argument list below is what `ffmpeg` is started with.
use vstd::prelude::*;

verus! {

/// The decimal digit character of `d`, for `d < 10`.
pub open spec fn digit_char(d: nat) -> char {
    seq!['0', '1', '2', '3', '4', '5', '6', '7', '8', '9'][d as int]
}

/// The decimal text of `x`: its digits, most significant first, without leading
/// zeros (`"0"` for zero).
pub open spec fn decimal(x: nat) -> Seq<char>
    decreases x,
{
    if x < 10 {
        seq![digit_char(x)]
    } else {
        decimal(x / 10).push(digit_char(x % 10))
    }
}

/// The frame size argument `"<width>x<height>"`.
pub open spec fn frame_size_text(width: u32, height: u32) -> Seq<char> {
    decimal(width as nat) + "x"@ + decimal(height as nat)
}

/// The arguments `ffmpeg` is started with: read raw `rgb24` frames of the given
/// size at 30 frames per second from standard input, overwrite `output`, and
/// encode it with `libx264` in `yuv420p`.
pub open spec fn ffmpeg_argument_list(width: u32, height: u32, output: Seq<char>) -> Seq<Seq<char>> {
    seq![
        "-y"@,
        "-f"@,
        "rawvideo"@,
        "-vcodec"@,
        "rawvideo"@,
        "-s"@,
        frame_size_text(width, height),
        "-pix_fmt"@,
        "rgb24"@,
        "-r"@,
        "30"@,
        "-i"@,
        "-"@,
        "-c:v"@,
        "libx264"@,
        "-pix_fmt"@,
        "yuv420p"@,
        output,
    ]
}

/// The one-character text of the digit `d`.
fn digit_text(d: u32) -> (s: &'static str)
    requires
        d < 10,
    ensures
        s@ == seq![digit_char(d as nat)],
{
    if d == 0 {
        proof {
            reveal_strlit("0");
        }
        "0"
    } else if d == 1 {
        proof {
            reveal_strlit("1");
        }
        "1"
    } else if d == 2 {
        proof {
            reveal_strlit("2");
        }
        "2"
    } else if d == 3 {
        proof {
            reveal_strlit("3");
        }
        "3"
    } else if d == 4 {
        proof {
            reveal_strlit("4");
        }
        "4"
    } else if d == 5 {
        proof {
            reveal_strlit("5");
        }
        "5"
    } else if d == 6 {
        proof {
            reveal_strlit("6");
        }
        "6"
    } else if d == 7 {
        proof {
            reveal_strlit("7");
        }
        "7"
    } else if d == 8 {
        proof {
            reveal_strlit("8");
        }
        "8"
    } else {
        proof {
            reveal_strlit("9");
        }
        "9"
    }
}

/// Returns the decimal text of `x`, as `x.to_string()` writes it.
pub fn decimal_string(x: u32) -> (s: String)
    ensures
        s@ == decimal(x as nat),
        is_numeral(s@),
        numeral_value(s@) == x,
    decreases x,
{
    proof {
        lemma_decimal_is_numeral(x as nat);
    }
    if x < 10 {
        String::from_str(digit_text(x))
    } else {
        let mut s = decimal_string(x / 10);
        s.append(digit_text(x % 10));
        s
    }
}

/// Returns the arguments that `ffmpeg` is started with to encode raw `rgb24`
/// frames of `width` by `height` pixels, read from standard input at 30 frames per
/// second, into the video file `output` with `libx264` in `yuv420p`.
pub fn ffmpeg_arguments(width: u32, height: u32, output: &str) -> (args: Vec<String>)
    ensures
        args.len() == 18,
        args.deep_view() == ffmpeg_argument_list(width, height, output@),
        reads_as_size(args.deep_view()[6], width as int, height as int),
        args.deep_view()[10] == "30"@,
        args.deep_view()[8] == "rgb24"@,
        args.deep_view()[17] == output@,
{
    proof {
        lemma_frame_size_reads_back(width, height, output@);
        lemma_encoder_settings(width, height, output@);
    }
    let mut size = decimal_string(width);
    size.append("x");
    let h = decimal_string(height);
    size.append(h.as_str());

    let mut args: Vec<String> = Vec::new();
    args.push(String::from_str("-y"));
    args.push(String::from_str("-f"));
    args.push(String::from_str("rawvideo"));
    args.push(String::from_str("-vcodec"));
    args.push(String::from_str("rawvideo"));
    args.push(String::from_str("-s"));
    args.push(size);
    args.push(String::from_str("-pix_fmt"));
    args.push(String::from_str("rgb24"));
    args.push(String::from_str("-r"));
    args.push(String::from_str("30"));
    args.push(String::from_str("-i"));
    args.push(String::from_str("-"));
    args.push(String::from_str("-c:v"));
    args.push(String::from_str("libx264"));
    args.push(String::from_str("-pix_fmt"));
    args.push(String::from_str("yuv420p"));
    args.push(String::from_str(output));
    assert(args.deep_view() =~= ffmpeg_argument_list(width, height, output@));
    args
}

/// Whether `c` is one of the ASCII digits `'0'` to `'9'`.
pub open spec fn is_digit(c: char) -> bool {
    '0' <= c && c <= '9'
}

/// The value of the ASCII digit `c`: its distance from `'0'`.
pub open spec fn digit_value(c: char) -> int {
    (c as int) - ('0' as int)
}

/// Whether `s` is a base-10 numeral: a non-empty run of digits that starts with
/// `'0'` only when it is `"0"` itself.
pub open spec fn is_numeral(s: Seq<char>) -> bool {
    &&& s.len() > 0
    &&& forall|i: int| 0 <= i < s.len() ==> is_digit(#[trigger] s[i])
    &&& s[0] == '0' ==> s.len() == 1
}

/// The number that the digits of `s` denote in base 10, read from the most
/// significant digit: `sum of digit_value(s[i]) * 10^(len - 1 - i)`.
pub open spec fn numeral_value(s: Seq<char>) -> int
    decreases s.len(),
{
    if s.len() == 0 {
        0
    } else {
        numeral_value(s.drop_last()) * 10 + digit_value(s.last())
    }
}

/// Whether `s` reads as a frame size `"<w>x<h>"`: two numerals, of values `w` and
/// `h`, joined by one `'x'`.
pub open spec fn reads_as_size(s: Seq<char>, w: int, h: int) -> bool {
    exists|k: int|
        0 <= k < s.len() && #[trigger] s[k] == 'x' && is_numeral(s.subrange(0, k))
            && numeral_value(s.subrange(0, k)) == w && is_numeral(s.subrange(k + 1, s.len() as int))
            && numeral_value(s.subrange(k + 1, s.len() as int)) == h
}

proof fn lemma_digit_char(d: nat)
    requires
        d < 10,
    ensures
        is_digit(digit_char(d)),
        digit_value(digit_char(d)) == d,
        digit_char(d) == '0' <==> d == 0,
{
    let t = seq!['0', '1', '2', '3', '4', '5', '6', '7', '8', '9'];
    assert(t[0] == '0' && t[1] == '1' && t[2] == '2' && t[3] == '3' && t[4] == '4');
    assert(t[5] == '5' && t[6] == '6' && t[7] == '7' && t[8] == '8' && t[9] == '9');
}

/// The decimal text of every number is a base-10 numeral whose digits denote that
/// number: no leading zero, and reading it back gives `x`.
pub proof fn lemma_decimal_is_numeral(x: nat)
    ensures
        is_numeral(decimal(x)),
        numeral_value(decimal(x)) == x,
    decreases x,
{
    if x < 10 {
        lemma_digit_char(x);
        let s = decimal(x);
        assert(s.drop_last() =~= Seq::<char>::empty());
        assert(numeral_value(Seq::<char>::empty()) == 0);
        assert(s.last() == digit_char(x));
        assert(numeral_value(s) == numeral_value(s.drop_last()) * 10 + digit_value(s.last()));
    } else {
        lemma_decimal_is_numeral(x / 10);
        lemma_digit_char(x % 10);
        let p = decimal(x / 10);
        let s = decimal(x);
        assert(s.drop_last() =~= p);
        assert(s[0] == p[0]);
        if p[0] == '0' {
            assert(p.len() == 1);
            assert(p.drop_last() =~= Seq::<char>::empty());
            assert(numeral_value(Seq::<char>::empty()) == 0);
            assert(p.last() == '0');
            assert(numeral_value(p) == numeral_value(p.drop_last()) * 10 + digit_value(p.last()));
            assert(false);
        }
        assert(s.last() == digit_char(x % 10));
        assert(numeral_value(s) == numeral_value(s.drop_last()) * 10 + digit_value(s.last()));
        assert forall|i: int| 0 <= i < s.len() implies is_digit(#[trigger] s[i]) by {
            if i < p.len() {
                assert(s[i] == p[i]);
            }
        }
    }
}

/// Two different numbers never have the same decimal text.
pub proof fn lemma_decimal_injective(x: nat, y: nat)
    requires
        decimal(x) == decimal(y),
    ensures
        x == y,
{
    lemma_decimal_is_numeral(x);
    lemma_decimal_is_numeral(y);
}

/// The frame size argument of the encoder reads back as the frame's width, then
/// `'x'`, then its height, for every width and height.
pub proof fn lemma_frame_size_reads_back(width: u32, height: u32, output: Seq<char>)
    ensures
        reads_as_size(ffmpeg_argument_list(width, height, output)[6], width as int, height as int),
{
    reveal_strlit("x");
    let w = decimal(width as nat);
    let h = decimal(height as nat);
    let s = ffmpeg_argument_list(width, height, output)[6];
    lemma_decimal_is_numeral(width as nat);
    lemma_decimal_is_numeral(height as nat);
    let k = w.len() as int;
    assert(s =~= w + seq!['x'] + h);
    assert(s.subrange(0, k) =~= w);
    assert(s.subrange(k + 1, s.len() as int) =~= h);
    assert(s[k] == 'x');
}

/// Whatever the frame size and output name: ffmpeg overwrites the output (`-y`),
/// reads raw video (`-f rawvideo -vcodec rawvideo`) of `rgb24` pixels at 30 frames
/// per second (`-r 30`) from standard input (`-i -`), encodes it with `libx264`
/// in `yuv420p`, and writes it to `output`, the last argument.
pub proof fn lemma_encoder_settings(width: u32, height: u32, output: Seq<char>)
    ensures
        ({
            let a = ffmpeg_argument_list(width, height, output);
            &&& a.len() == 18
            &&& a[0] == "-y"@
            &&& a[1] == "-f"@ && a[2] == "rawvideo"@
            &&& a[3] == "-vcodec"@ && a[4] == "rawvideo"@
            &&& a[5] == "-s"@
            &&& a[7] == "-pix_fmt"@ && a[8] == "rgb24"@
            &&& a[9] == "-r"@ && a[10] == "30"@
            &&& a[11] == "-i"@ && a[12] == "-"@
            &&& a[13] == "-c:v"@ && a[14] == "libx264"@
            &&& a[15] == "-pix_fmt"@ && a[16] == "yuv420p"@
            &&& a[17] == output
        }),
{
}

/// Two argument lists differ only in the frame size (argument 6) and the output
/// name (argument 17): every other argument is a fixed setting.
pub proof fn lemma_settings_independent_of_frame(
    w1: u32,
    h1: u32,
    o1: Seq<char>,
    w2: u32,
    h2: u32,
    o2: Seq<char>,
)
    ensures
        forall|i: int|
            0 <= i < 18 && i != 6 && i != 17 ==> #[trigger] ffmpeg_argument_list(w1, h1, o1)[i]
                == ffmpeg_argument_list(w2, h2, o2)[i],
{
    lemma_encoder_settings(w1, h1, o1);
    lemma_encoder_settings(w2, h2, o2);
}

} // verus!
