use vstd::prelude::*;
use crate::ui::Bounds;

verus! {

/// The decimal digit character for `d < 10`.
pub open spec fn digit_char(d: nat) -> char {
    if d == 0 { '0' }
    else if d == 1 { '1' }
    else if d == 2 { '2' }
    else if d == 3 { '3' }
    else if d == 4 { '4' }
    else if d == 5 { '5' }
    else if d == 6 { '6' }
    else if d == 7 { '7' }
    else if d == 8 { '8' }
    else { '9' }
}

/// The decimal notation of `n`, without leading zeros.
pub open spec fn decimal(n: nat) -> Seq<char>
    decreases n,
{
    if n < 10 {
        seq![digit_char(n)]
    } else {
        decimal(n / 10).push(digit_char(n % 10))
    }
}

fn digit(d: u64) -> (c: char)
    requires
        d < 10,
    ensures
        c == digit_char(d as nat),
{
    if d == 0 { '0' }
    else if d == 1 { '1' }
    else if d == 2 { '2' }
    else if d == 3 { '3' }
    else if d == 4 { '4' }
    else if d == 5 { '5' }
    else if d == 6 { '6' }
    else if d == 7 { '7' }
    else if d == 8 { '8' }
    else { '9' }
}

/// Appends the decimal notation of `n`.
pub fn push_decimal(n: u64, out: &mut Vec<char>)
    ensures
        final(out)@ == old(out)@ + decimal(n as nat),
    decreases n,
{
    if n >= 10 {
        push_decimal(n / 10, out);
    }
    let c = digit(n % 10);
    out.push(c);
    proof {
        if n >= 10 {
            assert(old(out)@ + decimal(n as nat) =~= (old(out)@ + decimal((n / 10) as nat)).push(c));
        } else {
            assert(old(out)@ + decimal(n as nat) =~= old(out)@.push(c));
        }
    }
}

/// Relies on `String::from_iter`: collecting characters gives the string of exactly
/// those characters, in order.
#[verifier::external_body]
pub(crate) fn string_from(chars: Vec<char>) -> (r: String)
    ensures
        r@ == chars@,
{
    String::from_iter(chars)
}

/// `n / div` in tenths, rounded to the nearest tenth (a tie goes to the even tenth).
pub open spec fn tenths(n: nat, div: nat) -> nat
    recommends
        div > 0,
{
    let q = (n * 10) / div;
    let rem = (n * 10) % div;
    if 2 * rem > div || (2 * rem == div && q % 2 == 1) {
        q + 1
    } else {
        q
    }
}

/// The short form of a count: as it is below 10,000; else in thousands (K), millions
/// (M) or billions (B) with one decimal.
pub open spec fn abbreviated(n: nat) -> Seq<char> {
    if n < 10_000 {
        decimal(n)
    } else {
        let div: nat = if n >= 1_000_000_000 {
            1_000_000_000
        } else if n >= 1_000_000 {
            1_000_000
        } else {
            1_000
        };
        let suffix = if n >= 1_000_000_000 {
            'B'
        } else if n >= 1_000_000 {
            'M'
        } else {
            'K'
        };
        let t = tenths(n, div);
        decimal(t / 10) + seq!['.', digit_char(t % 10), suffix]
    }
}

/// Formats resource counts for display.
pub struct Numbers {}

impl Numbers {
    /// The short form of `num` (see `abbreviated`).
    pub fn format(num: u64) -> (r: String)
        ensures
            r@ == abbreviated(num as nat),
    {
        let mut out: Vec<char> = Vec::new();
        if num < 10_000 {
            push_decimal(num, &mut out);
            assert(out@ =~= decimal(num as nat));
            return string_from(out);
        }
        let (div, suffix): (u64, char) = if num >= 1_000_000_000 {
            (1_000_000_000, 'B')
        } else if num >= 1_000_000 {
            (1_000_000, 'M')
        } else {
            (1_000, 'K')
        };
        let wide: u128 = (num as u128) * 10;
        let q: u128 = wide / (div as u128);
        let rem: u128 = wide % (div as u128);
        let t: u128 = if 2 * rem > div as u128 || (2 * rem == div as u128 && q % 2 == 1) {
            q + 1
        } else {
            q
        };
        assert(t == tenths(num as nat, div as nat));
        assert(t <= 184467440737095516160u128);
        let whole: u64 = (t / 10) as u64;
        let frac: u64 = (t % 10) as u64;
        push_decimal(whole, &mut out);
        out.push('.');
        let d = digit(frac);
        out.push(d);
        out.push(suffix);
        assert(out@ =~= decimal(whole as nat) + seq!['.', digit_char(frac as nat), suffix]);
        string_from(out)
    }
}

/// Unicode White_Space, the separator of words.
pub open spec fn is_ws(c: char) -> bool {
    let u = c as u32;
    (9 <= u <= 13) || u == 32 || u == 0x85 || u == 0xA0 || u == 0x1680 || (0x2000 <= u <= 0x200A)
        || u == 0x2028 || u == 0x2029 || u == 0x202F || u == 0x205F || u == 0x3000
}

/// The number of bytes of `c` in UTF-8.
pub open spec fn utf8_len(c: char) -> nat {
    let u = c as u32;
    if u < 0x80 {
        1
    } else if u < 0x800 {
        2
    } else if u < 0x10000 {
        3
    } else {
        4
    }
}

/// The number of bytes of `s` in UTF-8.
pub open spec fn bytes_len(s: Seq<char>) -> nat
    decreases s.len(),
{
    if s.len() == 0 {
        0
    } else {
        bytes_len(s.drop_last()) + utf8_len(s.last())
    }
}

/// Puts word `w` on the current line, or first closes the line (`lines` gains it) when
/// line, space and word together would exceed `max` bytes.
pub open spec fn place(lines: Seq<Seq<char>>, cur: Seq<char>, w: Seq<char>, max: nat) -> (Seq<Seq<char>>, Seq<char>) {
    let closes = bytes_len(cur) + bytes_len(w) + 1 > max;
    let ls = if closes { lines.push(cur) } else { lines };
    let c = if closes { Seq::<char>::empty() } else { cur };
    (ls, if c.len() > 0 { c + seq![' '] + w } else { w })
}

/// The closed lines, the open line and the pending word after reading `s`.
pub open spec fn scan(s: Seq<char>, max: nat) -> (Seq<Seq<char>>, Seq<char>, Seq<char>)
    decreases s.len(),
{
    if s.len() == 0 {
        (Seq::empty(), Seq::empty(), Seq::empty())
    } else {
        let prev = scan(s.drop_last(), max);
        let c = s.last();
        if is_ws(c) {
            if prev.2.len() > 0 {
                let placed = place(prev.0, prev.1, prev.2, max);
                (placed.0, placed.1, Seq::empty())
            } else {
                prev
            }
        } else {
            (prev.0, prev.1, prev.2.push(c))
        }
    }
}

/// The lines of `s` wrapped greedily at `max` bytes: words are separated by white
/// space and joined by single spaces.
pub open spec fn wrapped(s: Seq<char>, max: nat) -> Seq<Seq<char>> {
    let st = scan(s, max);
    let placed = if st.2.len() > 0 { place(st.0, st.1, st.2, max) } else { (st.0, st.1) };
    if placed.1.len() > 0 {
        placed.0.push(placed.1)
    } else {
        placed.0
    }
}

fn is_ws_char(c: char) -> (r: bool)
    ensures
        r == is_ws(c),
{
    let u = c as u32;
    (9 <= u && u <= 13) || u == 32 || u == 0x85 || u == 0xA0 || u == 0x1680 || (0x2000 <= u && u <= 0x200A)
        || u == 0x2028 || u == 0x2029 || u == 0x202F || u == 0x205F || u == 0x3000
}

fn utf8_len_of(c: char) -> (r: u128)
    ensures
        r == utf8_len(c),
        1 <= r <= 4,
{
    let u = c as u32;
    if u < 0x80 {
        1
    } else if u < 0x800 {
        2
    } else if u < 0x10000 {
        3
    } else {
        4
    }
}

fn append_chars(dst: &mut Vec<char>, src: &Vec<char>)
    ensures
        final(dst)@ == old(dst)@ + src@,
{
    let n = src.len();
    let mut i: usize = 0;
    while i < n
        invariant
            n == src@.len(),
            i <= n,
            dst@ == old(dst)@ + src@.subrange(0, i as int),
        decreases n - i,
    {
        dst.push(src[i]);
        i = i + 1;
        assert(dst@ =~= old(dst)@ + src@.subrange(0, i as int));
    }
    assert(src@.subrange(0, n as int) =~= src@);
}

/// The views of a list of character lines.
pub open spec fn line_views(v: Seq<Vec<char>>) -> Seq<Seq<char>> {
    v.map_values(|l: Vec<char>| l@)
}

proof fn lemma_bytes_push(s: Seq<char>, c: char)
    ensures
        bytes_len(s.push(c)) == bytes_len(s) + utf8_len(c),
{
    assert(s.push(c).drop_last() =~= s);
}

proof fn lemma_bytes_concat(a: Seq<char>, b: Seq<char>)
    ensures
        bytes_len(a + b) == bytes_len(a) + bytes_len(b),
    decreases b.len(),
{
    if b.len() == 0 {
        assert(a + b =~= a);
    } else {
        lemma_bytes_concat(a, b.drop_last());
        assert((a + b).drop_last() =~= a + b.drop_last());
        assert((a + b).last() == b.last());
    }
}

/// The exec counterpart of `place`, with byte counts of the open line and the word.
fn place_word(
    lines: Vec<Vec<char>>,
    cur: Vec<char>,
    cur_bytes: u128,
    w: &Vec<char>,
    w_bytes: u128,
    max: usize,
) -> (r: (Vec<Vec<char>>, Vec<char>, u128))
    requires
        cur_bytes == bytes_len(cur@),
        w_bytes == bytes_len(w@),
        cur_bytes + w_bytes + 1 < u128::MAX,
    ensures
        line_views(r.0@) == place(line_views(lines@), cur@, w@, max as nat).0,
        r.1@ == place(line_views(lines@), cur@, w@, max as nat).1,
        r.2 == bytes_len(r.1@),
        r.2 <= cur_bytes + w_bytes + 1,
{
    let mut lines = lines;
    let mut cur = cur;
    let mut cur_bytes = cur_bytes;
    let ghost l0 = lines@;
    let ghost c0 = cur@;
    if cur_bytes + w_bytes + 1 > max as u128 {
        lines.push(cur);
        cur = Vec::new();
        cur_bytes = 0;
        assert(line_views(lines@) =~= line_views(l0).push(c0));
    }
    if cur.len() > 0 {
        let ghost c1 = cur@;
        cur.push(' ');
        append_chars(&mut cur, w);
        proof {
            lemma_bytes_push(c1, ' ');
            lemma_bytes_concat(c1.push(' '), w@);
            assert(c1 + seq![' '] + w@ =~= c1.push(' ') + w@);
        }
        cur_bytes = cur_bytes + 1 + w_bytes;
    } else {
        append_chars(&mut cur, w);
        proof {
            assert(cur@ =~= w@);
        }
        cur_bytes = w_bytes;
    }
    (lines, cur, cur_bytes)
}

/// A tooltip: text wrapped into lines, placed beside what it explains.
#[derive(Debug)]
pub struct WrapBox {
    pub bounds: Bounds,
    pub lines: Vec<String>,
    pub colors_index: u32,
    pub fixed: bool,
}

/// The height of a tooltip of `n` lines: ten pixels a line and six of margin, held
/// at a million.
pub open spec fn box_height(n: nat) -> i32 {
    if n * 10 + 6 <= 1_000_000 {
        (n * 10 + 6) as i32
    } else {
        1_000_000
    }
}

/// Screen coordinates stay within a million pixels of the origin.
pub open spec fn on_screen(b: Bounds) -> bool {
    -1_000_000 <= b.x <= 1_000_000 && -1_000_000 <= b.y <= 1_000_000 && 0 <= b.w <= 1_000_000 && 0 <= b.h
        <= 1_000_000
}

impl WrapBox {
    /// A tooltip of `text` wrapped at 20 bytes, 112 pixels wide, parked off screen.
    pub fn new(text: String, colors_index: u32) -> (r: WrapBox)
        ensures
            r.lines@.len() == wrapped(text@, 20).len(),
            forall|i: int| 0 <= i < r.lines@.len() ==> #[trigger] r.lines@[i]@ == wrapped(text@, 20)[i],
            r.bounds == (Bounds { x: -320i32, y: -320i32, w: 112i32, h: box_height(r.lines@.len()) }),
            r.colors_index == colors_index,
            !r.fixed,
    {
        let lines = WrapBox::split_text(text, 20);
        let n = lines.len();
        let h: i32 = if n <= 99_999 {
            (n * 10 + 6) as i32
        } else {
            1_000_000
        };
        WrapBox { bounds: Bounds::new(-320, -320, 112, h), lines, colors_index, fixed: false }
    }

    /// Places the tooltip beside `bounds`: to its left on the right half of the screen,
    /// else to its right, `x_offset` away, centred vertically, and kept above the
    /// bottom edge (y 400).
    pub fn update(&mut self, bounds: Bounds, x_offset: i32)
        requires
            on_screen(bounds),
            on_screen(old(self).bounds),
            -1_000_000 <= x_offset <= 1_000_000,
        ensures
            final(self).bounds.w == old(self).bounds.w,
            final(self).bounds.h == old(self).bounds.h,
            final(self).bounds.x == if bounds.x >= 320 {
                bounds.x - old(self).bounds.w - x_offset
            } else {
                bounds.x + bounds.w + x_offset
            },
            final(self).bounds.y == if (bounds.y + bounds.h / 2 - old(self).bounds.h / 2) + old(self).bounds.h >= 400 {
                400 - old(self).bounds.h
            } else {
                bounds.y + bounds.h / 2 - old(self).bounds.h / 2
            },
            final(self).lines == old(self).lines,
    {
        let x = if bounds.x >= 320 {
            bounds.x - self.bounds.w - x_offset
        } else {
            bounds.x + bounds.w + x_offset
        };
        let mut y = bounds.y + bounds.h / 2 - self.bounds.h / 2;
        if y + self.bounds.h >= 400 {
            y = 400 - self.bounds.h;
        }
        self.bounds = Bounds::new(x, y, self.bounds.w, self.bounds.h);
    }
    /// Splits `text` into lines of at most `max_line_length` bytes, greedily, words
    /// joined by single spaces; a word that alone exceeds the width gets a line of its own.
    pub fn split_text(text: String, max_line_length: usize) -> (r: Vec<String>)
        ensures
            r@.len() == wrapped(text@, max_line_length as nat).len(),
            forall|i: int| 0 <= i < r@.len() ==> #[trigger] r@[i]@ == wrapped(text@, max_line_length as nat)[i],
    {
        let ghost width = max_line_length as nat;
        let n = text.as_str().unicode_len();
        let mut lines: Vec<Vec<char>> = Vec::new();
        let mut cur: Vec<char> = Vec::new();
        let mut cur_bytes: u128 = 0;
        let mut w: Vec<char> = Vec::new();
        let mut w_bytes: u128 = 0;
        let mut i: usize = 0;
        assert(text@.subrange(0, 0) =~= Seq::<char>::empty());
        assert(line_views(lines@) =~= Seq::<Seq<char>>::empty());
        while i < n
            invariant
                n == text@.len(),
                width == max_line_length as nat,
                i <= n,
                (line_views(lines@), cur@, w@) == scan(text@.subrange(0, i as int), width),
                cur_bytes == bytes_len(cur@),
                w_bytes == bytes_len(w@),
                cur_bytes <= 5 * (i as u128),
                w_bytes <= 4 * (i as u128),
                cur_bytes + w_bytes <= 5 * (i as u128),
            decreases n - i,
        {
            let c = text.as_str().get_char(i);
            let ghost pre = text@.subrange(0, i as int);
            let ghost post = text@.subrange(0, i as int + 1);
            assert(post.drop_last() =~= pre);
            assert(post.last() == c);
            if is_ws_char(c) {
                if w.len() > 0 {
                    let placed = place_word(lines, cur, cur_bytes, &w, w_bytes, max_line_length);
                    lines = placed.0;
                    cur = placed.1;
                    cur_bytes = placed.2;
                    w = Vec::new();
                    w_bytes = 0;
                    assert(w@ =~= Seq::<char>::empty());
                }
                assert((line_views(lines@), cur@, w@) == scan(post, width));
            } else {
                proof {
                    lemma_bytes_push(w@, c);
                }
                w.push(c);
                w_bytes = w_bytes + utf8_len_of(c);
                assert((line_views(lines@), cur@, w@) == scan(post, width));
            }
            i = i + 1;
        }
        assert(text@.subrange(0, n as int) =~= text@);
        if w.len() > 0 {
            let placed = place_word(lines, cur, cur_bytes, &w, w_bytes, max_line_length);
            lines = placed.0;
            cur = placed.1;
            cur_bytes = placed.2;
        }
        if cur.len() > 0 {
            let ghost l0 = lines@;
            let ghost c0 = cur@;
            lines.push(cur);
            assert(line_views(lines@) =~= line_views(l0).push(c0));
        }
        let ghost target = wrapped(text@, width);
        assert(line_views(lines@) == target);
        let mut out: Vec<String> = Vec::new();
        let m = lines.len();
        let mut j: usize = 0;
        while j < m
            invariant
                m == lines@.len(),
                j <= m,
                line_views(lines@) == target,
                out@.len() == j,
                forall|k: int| 0 <= k < j ==> #[trigger] out@[k]@ == target[k],
            decreases m - j,
        {
            let mut copy: Vec<char> = Vec::new();
            append_chars(&mut copy, &lines[j]);
            assert(copy@ =~= lines@[j as int]@);
            assert(target[j as int] == lines@[j as int]@);
            out.push(string_from(copy));
            j = j + 1;
        }
        out
    }
}

} // verus!
