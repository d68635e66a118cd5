//! Text helpers with exact models: blank lines, joined lines and decimal
//! numerals.
use vstd::prelude::*;

verus! {

/// The Unicode `White_Space` property.
pub open spec fn white_space(c: char) -> bool {
    ||| '\u{9}' <= c <= '\u{D}'
    ||| c == ' '
    ||| c == '\u{85}'
    ||| c == '\u{A0}'
    ||| c == '\u{1680}'
    ||| '\u{2000}' <= c <= '\u{200A}'
    ||| c == '\u{2028}'
    ||| c == '\u{2029}'
    ||| c == '\u{202F}'
    ||| c == '\u{205F}'
    ||| c == '\u{3000}'
}

/// A line is blank when trimming white space from it leaves nothing.
pub open spec fn blank(s: Seq<char>) -> bool {
    forall|i: int| 0 <= i < s.len() ==> white_space(#[trigger] s[i])
}

/// The lines in order, each separated from the next by one newline.
pub open spec fn joined(lines: Seq<Seq<char>>) -> Seq<char>
    decreases lines.len(),
{
    if lines.len() == 0 {
        Seq::empty()
    } else if lines.len() == 1 {
        lines[0]
    } else {
        lines[0] + seq!['\n'] + joined(lines.skip(1))
    }
}

/// The numeral character of a value below ten.
pub open spec fn digit(d: nat) -> char {
    ('0' as nat + d) as char
}

/// The decimal numeral of `n`, without leading zeros.
pub open spec fn decimal(n: nat) -> Seq<char>
    decreases n,
{
    if n < 10 {
        seq![digit(n)]
    } else {
        decimal(n / 10).push(digit(n % 10))
    }
}

/// Whether `c` is white space.
pub fn is_white_space(c: char) -> (res: bool)
    ensures
        res == white_space(c),
{
    ('\u{9}' <= c && c <= '\u{D}') || c == ' ' || c == '\u{85}' || c == '\u{A0}' || c == '\u{1680}'
        || ('\u{2000}' <= c && c <= '\u{200A}') || c == '\u{2028}' || c == '\u{2029}'
        || c == '\u{202F}' || c == '\u{205F}' || c == '\u{3000}'
}

/// Whether the line holds nothing but white space.
pub fn is_blank(line: &str) -> (res: bool)
    ensures
        res == blank(line@),
{
    for c in it: line.chars()
        invariant
            it.seq() == line@,
            forall|i: int| 0 <= i < it.index() ==> white_space(#[trigger] line@[i]),
    {
        if !is_white_space(c) {
            assert(!white_space(line@[it.index()]));
            return false;
        }
    }
    true
}

fn digit_text(d: u64) -> (res: &'static str)
    requires
        d < 10,
    ensures
        res@ == seq![digit(d as nat)],
{
    proof {
        reveal_strlit("0");
        reveal_strlit("1");
        reveal_strlit("2");
        reveal_strlit("3");
        reveal_strlit("4");
        reveal_strlit("5");
        reveal_strlit("6");
        reveal_strlit("7");
        reveal_strlit("8");
        reveal_strlit("9");
    }
    match d {
        0 => "0",
        1 => "1",
        2 => "2",
        3 => "3",
        4 => "4",
        5 => "5",
        6 => "6",
        7 => "7",
        8 => "8",
        _ => "9",
    }
}

/// Writes `n` as a decimal numeral.
pub fn to_decimal(n: u64) -> (res: String)
    ensures
        res@ == decimal(n as nat),
    decreases n,
{
    if n < 10 {
        digit_text(n).to_owned()
    } else {
        let mut res = to_decimal(n / 10);
        res.append(digit_text(n % 10));
        res
    }
}

/// Joins the lines with one newline between neighbours.
pub fn join_lines(lines: &Vec<String>) -> (res: String)
    ensures
        res@ == joined(lines.deep_view()),
{
    let ghost all = lines.deep_view();
    let mut res = String::new();
    if lines.len() == 0 {
        return res;
    }
    let mut i: usize = 0;
    assert(all.skip(0) == all);
    while i + 1 < lines.len()
        invariant
            i < lines.len(),
            all == lines.deep_view(),
            joined(all) == res@ + joined(all.skip(i as int)),
        decreases lines.len() - i,
    {
        proof {
            reveal_strlit("\n");
        }
        let ghost rest = all.skip(i as int);
        let ghost before = res@;
        res.append(lines[i].as_str());
        res.append("\n");
        i = i + 1;
        proof {
            assert(rest.skip(1) == all.skip(i as int));
            assert("\n"@ == seq!['\n']);
            assert(before + (rest[0] + seq!['\n'] + joined(rest.skip(1))) == res@ + joined(rest.skip(1)));
        }
    }
    res.append(lines[i].as_str());
    res
}

proof fn decimal_shape(n: nat)
    ensures
        decimal(n).len() >= 1,
        n < 10 <==> decimal(n).len() == 1,
        decimal(n).last() as nat == '0' as nat + n % 10,
    decreases n,
{
    if n >= 10 {
        decimal_shape(n / 10);
    }
}

/// A numeral holds nothing but digits.
pub proof fn decimal_holds_digits_only(n: nat)
    ensures
        decimal(n).len() > 0,
        forall|i: int| 0 <= i < decimal(n).len() ==> '0' <= #[trigger] decimal(n)[i] <= '9',
    decreases n,
{
    if n >= 10 {
        decimal_holds_digits_only(n / 10);
    }
}

/// Two numbers with the same decimal numeral are the same number.
pub proof fn decimal_is_injective(m: nat, n: nat)
    requires
        decimal(m) == decimal(n),
    ensures
        m == n,
    decreases m,
{
    decimal_shape(m);
    decimal_shape(n);
    if m >= 10 && n >= 10 {
        assert(decimal(m).drop_last() == decimal(m / 10));
        assert(decimal(n).drop_last() == decimal(n / 10));
        decimal_is_injective(m / 10, n / 10);
    }
}

/// No line of the batch holds a newline.
pub open spec fn newline_free(lines: Seq<Seq<char>>) -> bool {
    forall|i: int| 0 <= i < lines.len() ==> !(#[trigger] lines[i]).contains('\n')
}

/// The joined text of newline-free lines determines the lines: joining loses
/// neither a line nor the border between two lines. Only no line at all and one
/// empty line look alike.
pub proof fn joined_is_injective(a: Seq<Seq<char>>, b: Seq<Seq<char>>)
    requires
        a.len() == 0 <==> b.len() == 0,
        newline_free(a),
        newline_free(b),
        joined(a) == joined(b),
    ensures
        a == b,
    decreases a.len(),
{
    let text = joined(a);
    if a.len() > 0 {
        assert(!a[0].contains('\n') && !b[0].contains('\n'));
    }
    if a.len() > 1 {
        assert(text[a[0].len() as int] == '\n');
    }
    if b.len() > 1 {
        assert(text[b[0].len() as int] == '\n');
    }
    if a.len() <= 1 || b.len() <= 1 {
        if a.len() > 1 {
            assert(b[0].contains('\n'));
        }
        if b.len() > 1 {
            assert(a[0].contains('\n'));
        }
        assert(a == b);
    } else {
        let (m, n) = (a[0].len() as int, b[0].len() as int);
        assert(forall|i: int| 0 <= i < m ==> text[i] == a[0][i]);
        assert(forall|i: int| 0 <= i < n ==> text[i] == b[0][i]);
        if m < n {
            assert(b[0][m] == '\n');
        }
        if n < m {
            assert(a[0][n] == '\n');
        }
        assert(a[0] == text.take(m));
        assert(b[0] == text.take(m));
        assert(joined(a.skip(1)) == text.skip(m + 1));
        assert(joined(b.skip(1)) == text.skip(m + 1));
        assert forall|i: int| 0 <= i < a.skip(1).len() implies !(#[trigger] a.skip(1)[i]).contains(
            '\n',
        ) by {
            assert(a.skip(1)[i] == a[i + 1]);
        }
        assert forall|i: int| 0 <= i < b.skip(1).len() implies !(#[trigger] b.skip(1)[i]).contains(
            '\n',
        ) by {
            assert(b.skip(1)[i] == b[i + 1]);
        }
        joined_is_injective(a.skip(1), b.skip(1));
        assert(a == seq![a[0]] + a.skip(1));
        assert(b == seq![b[0]] + b.skip(1));
    }
}

/// The empty text is blank; a text of one character is blank exactly if the
/// character is white space; and a text put together from two is blank exactly
/// if both are. So a text is blank exactly if all its characters are white
/// space.
pub proof fn blankness_is_decided_by_each_character(a: Seq<char>, b: Seq<char>, c: char)
    ensures
        blank(Seq::<char>::empty()),
        blank(seq![c]) <==> white_space(c),
        blank(a + b) <==> blank(a) && blank(b),
{
    assert(seq![c][0] == c);
    if blank(a + b) {
        assert forall|i: int| 0 <= i < a.len() implies white_space(#[trigger] a[i]) by {
            assert((a + b)[i] == a[i]);
        }
        assert forall|i: int| 0 <= i < b.len() implies white_space(#[trigger] b[i]) by {
            assert((a + b)[a.len() + i] == b[i]);
        }
    }
}

/// One character that is not white space, wherever it stands, keeps a text from
/// being blank.
pub proof fn one_character_keeps_a_text_from_being_blank(s: Seq<char>, i: int)
    requires
        0 <= i < s.len(),
        !white_space(s[i]),
    ensures
        !blank(s),
{
}

/// No lines join to nothing, one line joins to itself, and lines that follow
/// others are joined behind them, after one newline. So the joined text shows
/// every line whole and in order.
pub proof fn joining_keeps_the_order(a: Seq<Seq<char>>, b: Seq<Seq<char>>, line: Seq<char>)
    ensures
        joined(Seq::<Seq<char>>::empty()) == Seq::<char>::empty(),
        joined(seq![line]) == line,
        a.len() > 0 && b.len() > 0 ==> joined(a + b) == joined(a) + seq!['\n'] + joined(b),
    decreases a.len(),
{
    if a.len() > 0 && b.len() > 0 {
        if a.len() == 1 {
            assert((a + b).skip(1) == b);
        } else {
            joining_keeps_the_order(a.skip(1), b, line);
            assert((a + b).skip(1) == a.skip(1) + b);
        }
        assert(joined(a + b) == joined(a) + seq!['\n'] + joined(b));
    }
}

/// The ten numerals of one digit.
pub proof fn small_numerals()
    ensures
        decimal(0) == "0"@,
        decimal(1) == "1"@,
        decimal(2) == "2"@,
        decimal(3) == "3"@,
        decimal(4) == "4"@,
        decimal(5) == "5"@,
        decimal(6) == "6"@,
        decimal(7) == "7"@,
        decimal(8) == "8"@,
        decimal(9) == "9"@,
{
    reveal_strlit("0");
    reveal_strlit("1");
    reveal_strlit("2");
    reveal_strlit("3");
    reveal_strlit("4");
    reveal_strlit("5");
    reveal_strlit("6");
    reveal_strlit("7");
    reveal_strlit("8");
    reveal_strlit("9");
}

/// A further digit is written behind the others and makes the number ten times
/// as large, plus the digit.
pub proof fn numerals_grow_to_the_right(n: nat, d: nat)
    requires
        n > 0,
        d < 10,
    ensures
        decimal(10 * n + d) == decimal(n) + decimal(d),
{
    assert((10 * n + d) / 10 == n);
    assert((10 * n + d) % 10 == d);
    assert(decimal(d) == seq![digit(d)]);
}

} // verus!
