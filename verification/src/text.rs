use vstd::prelude::*;
use vstd::string::*;
use itertools::Itertools;

verus! {

/// A piece of text, `times` times in a row.
pub open spec fn repeated(piece: Seq<char>, times: nat) -> Seq<char>
    decreases times,
{
    if times == 0 {
        Seq::empty()
    } else {
        repeated(piece, (times - 1) as nat) + piece
    }
}

/// The pieces `piece(0)` to `piece(count - 1)`, one after the other.
pub open spec fn flattened(count: nat, piece: spec_fn(int) -> Seq<char>) -> Seq<char>
    decreases count,
{
    if count == 0 {
        Seq::empty()
    } else {
        flattened((count - 1) as nat, piece) + piece(count - 1)
    }
}

/// A text filled up with spaces at its end to `width` characters; unchanged where it is as
/// long or longer.
pub open spec fn padded(text: Seq<char>, width: nat) -> Seq<char> {
    if text.len() < width {
        text + repeated(" "@, (width - text.len()) as nat)
    } else {
        text
    }
}

/// A text with spaces on both sides up to `width` characters, the odd space at its end;
/// unchanged where it is as long or longer.
pub open spec fn centered(text: Seq<char>, width: nat) -> Seq<char> {
    if text.len() < width {
        let spaces = width - text.len();
        repeated(" "@, (spaces / 2) as nat) + text + repeated(" "@, (spaces - spaces / 2) as nat)
    } else {
        text
    }
}

/// The text of one decimal digit; that of 9 for what is no digit.
pub open spec fn digit_text(digit: int) -> Seq<char> {
    if digit == 0 {
        "0"@
    } else if digit == 1 {
        "1"@
    } else if digit == 2 {
        "2"@
    } else if digit == 3 {
        "3"@
    } else if digit == 4 {
        "4"@
    } else if digit == 5 {
        "5"@
    } else if digit == 6 {
        "6"@
    } else if digit == 7 {
        "7"@
    } else if digit == 8 {
        "8"@
    } else {
        "9"@
    }
}

/// A number in decimal digits, without leading zeros.
pub open spec fn decimal(n: nat) -> Seq<char>
    decreases n,
{
    if n < 10 {
        digit_text(n as int)
    } else {
        decimal(n / 10) + digit_text((n % 10) as int)
    }
}

/// A time in seconds as minutes, a colon, and two digits of seconds.
pub open spec fn clock(seconds: nat) -> Seq<char> {
    decimal(seconds / 60) + ":"@ + digit_text(((seconds % 60) / 10) as int) + digit_text(
        (seconds % 10) as int,
    )
}

/// The number of characters of the longest row; 0 for no rows.
pub open spec fn widest(rows: Seq<Seq<char>>) -> nat
    decreases rows.len(),
{
    if rows.len() == 0 {
        0
    } else if widest(rows.drop_last()) >= rows.last().len() {
        widest(rows.drop_last())
    } else {
        rows.last().len()
    }
}

/// The characters of each string.
pub open spec fn texts(rows: Seq<String>) -> Seq<Seq<char>> {
    rows.map_values(|row: String| row@)
}

/// Two blocks of rows side by side: each row is the left block's row filled up to that
/// block's widest row, two spaces, and the right block's row filled up likewise. Where one
/// block has fewer rows than the other, its missing rows count as empty.
pub open spec fn side_by_side(left: Seq<Seq<char>>, right: Seq<Seq<char>>) -> Seq<Seq<char>> {
    Seq::new(
        if left.len() >= right.len() {
            left.len()
        } else {
            right.len()
        },
        |i: int|
            padded(
                if i < left.len() {
                    left[i]
                } else {
                    Seq::empty()
                },
                widest(left),
            ) + "  "@ + padded(
                if i < right.len() {
                    right[i]
                } else {
                    Seq::empty()
                },
                widest(right),
            ),
    )
}

/// `Itertools::zip_longest` over the two lists' elements, each pair turned into two options
/// by `EitherOrBoth::left_and_right`: as many pairs as the longer list has elements, and in
/// pair `i` element `i` of each list that has one.
#[verifier::external_body]
pub(crate) fn zip_longest_rows(left: &Vec<String>, right: &Vec<String>) -> (pairs: Vec<
    (Option<String>, Option<String>),
>)
    ensures
        pairs@.len() == if left@.len() >= right@.len() {
            left@.len()
        } else {
            right@.len()
        },
        forall|i: int|
            0 <= i < pairs@.len() ==> (#[trigger] pairs@[i]).0.is_some() == (i < left@.len()),
        forall|i: int|
            0 <= i < pairs@.len() && i < left@.len() ==> (#[trigger] pairs@[i]).0.unwrap()@
                == left@[i]@,
        forall|i: int|
            0 <= i < pairs@.len() ==> (#[trigger] pairs@[i]).1.is_some() == (i < right@.len()),
        forall|i: int|
            0 <= i < pairs@.len() && i < right@.len() ==> (#[trigger] pairs@[i]).1.unwrap()@
                == right@[i]@,
{
    left.iter()
        .cloned()
        .zip_longest(right.iter().cloned())
        .map(|pair| pair.left_and_right())
        .collect()
}

/// Appends a piece of text `times` times.
pub fn append_repeated(out: &mut String, piece: &str, times: usize)
    ensures
        final(out)@ == old(out)@ + repeated(piece@, times as nat),
{
    let mut i: usize = 0;
    assert(out@ =~= old(out)@ + repeated(piece@, 0));
    while i < times
        invariant
            i <= times,
            out@ == old(out)@ + repeated(piece@, i as nat),
        decreases times - i,
    {
        out.append(piece);
        i += 1;
        assert(out@ =~= old(out)@ + repeated(piece@, i as nat));
    }
}

/// Appends a text and fills it up with spaces to `width` characters.
pub fn append_padded(out: &mut String, text: &str, width: usize)
    ensures
        final(out)@ == old(out)@ + padded(text@, width as nat),
{
    let len = text.unicode_len();
    out.append(text);
    if len < width {
        append_repeated(out, " ", width - len);
    }
    assert(out@ =~= old(out)@ + padded(text@, width as nat));
}

/// Appends a text with spaces on both sides up to `width` characters.
pub fn append_centered(out: &mut String, text: &str, width: usize)
    ensures
        final(out)@ == old(out)@ + centered(text@, width as nat),
{
    let len = text.unicode_len();
    if len < width {
        let spaces = width - len;
        append_repeated(out, " ", spaces / 2);
        out.append(text);
        append_repeated(out, " ", spaces - spaces / 2);
    } else {
        out.append(text);
    }
    assert(out@ =~= old(out)@ + centered(text@, width as nat));
}

/// The text of one decimal digit; that of 9 for what is no digit.
pub fn digit_str(digit: u64) -> (text: &'static str)
    ensures
        text@ == digit_text(digit as int),
{
    if digit == 0 {
        "0"
    } else if digit == 1 {
        "1"
    } else if digit == 2 {
        "2"
    } else if digit == 3 {
        "3"
    } else if digit == 4 {
        "4"
    } else if digit == 5 {
        "5"
    } else if digit == 6 {
        "6"
    } else if digit == 7 {
        "7"
    } else if digit == 8 {
        "8"
    } else {
        "9"
    }
}

/// Appends a number in decimal digits.
pub fn append_decimal(out: &mut String, n: u64)
    ensures
        final(out)@ == old(out)@ + decimal(n as nat),
    decreases n,
{
    if n >= 10 {
        append_decimal(out, n / 10);
    }
    out.append(digit_str(n % 10));
    assert(out@ =~= old(out)@ + decimal(n as nat));
}

/// A number in decimal digits.
pub fn decimal_string(n: u64) -> (text: String)
    ensures
        text@ == decimal(n as nat),
{
    let mut text = String::new();
    append_decimal(&mut text, n);
    assert(text@ =~= decimal(n as nat));
    text
}

/// A time in seconds as minutes, a colon, and two digits of seconds.
pub fn clock_string(seconds: u64) -> (text: String)
    ensures
        text@ == clock(seconds as nat),
{
    let mut text = String::new();
    append_decimal(&mut text, seconds / 60);
    text.append(":");
    text.append(digit_str((seconds % 60) / 10));
    text.append(digit_str(seconds % 10));
    assert(text@ =~= clock(seconds as nat));
    text
}

/// The number of characters of the longest line; 0 for no lines.
pub fn required_width(lines: &Vec<String>) -> (width: usize)
    ensures
        width == widest(texts(lines@)),
{
    let mut width: usize = 0;
    let mut i: usize = 0;
    assert(texts(lines@).take(0) =~= Seq::empty());
    while i < lines.len()
        invariant
            i <= lines@.len(),
            width == widest(texts(lines@).take(i as int)),
        decreases lines@.len() - i,
    {
        let len = lines[i].as_str().unicode_len();
        assert(texts(lines@).take(i + 1).drop_last() =~= texts(lines@).take(i as int));
        if len > width {
            width = len;
        }
        i += 1;
    }
    assert(texts(lines@).take(i as int) =~= texts(lines@));
    width
}

/// Two blocks of lines side by side, each filled up to its widest line, two spaces between
/// them.
pub fn join_side_by_side(left: &Vec<String>, right: &Vec<String>) -> (rows: Vec<String>)
    ensures
        texts(rows@) == side_by_side(texts(left@), texts(right@)),
{
    let left_width = required_width(left);
    let right_width = required_width(right);
    let pairs = zip_longest_rows(left, right);
    let mut rows: Vec<String> = Vec::new();
    let mut i: usize = 0;
    let ghost goal = side_by_side(texts(left@), texts(right@));
    while i < pairs.len()
        invariant
            i <= pairs@.len(),
            pairs@.len() == goal.len(),
            goal == side_by_side(texts(left@), texts(right@)),
            left_width == widest(texts(left@)),
            right_width == widest(texts(right@)),
            rows@.len() == i,
            forall|k: int| 0 <= k < i ==> (#[trigger] rows@[k])@ == goal[k],
            forall|k: int|
                0 <= k < pairs@.len() ==> (#[trigger] pairs@[k]).0.is_some() == (k < left@.len()),
            forall|k: int|
                0 <= k < pairs@.len() && k < left@.len() ==> (#[trigger] pairs@[k]).0.unwrap()@
                    == left@[k]@,
            forall|k: int|
                0 <= k < pairs@.len() ==> (#[trigger] pairs@[k]).1.is_some() == (k < right@.len()),
            forall|k: int|
                0 <= k < pairs@.len() && k < right@.len() ==> (#[trigger] pairs@[k]).1.unwrap()@
                    == right@[k]@,
        decreases pairs@.len() - i,
    {
        let mut row = String::new();
        match &pairs[i].0 {
            Some(text) => append_padded(&mut row, text.as_str(), left_width),
            None => append_padded(&mut row, "", left_width),
        }
        row.append("  ");
        match &pairs[i].1 {
            Some(text) => append_padded(&mut row, text.as_str(), right_width),
            None => append_padded(&mut row, "", right_width),
        }
        proof {
            reveal_strlit("");
            assert(""@ =~= Seq::<char>::empty());
            assert(row@ =~= goal[i as int]);
        }
        rows.push(row);
        i += 1;
    }
    assert(texts(rows@) =~= goal);
    rows
}

} // verus!
