//! File name templates: a prefix, an optional page-number placeholder in the manner of
//! `printf` (`%3d`, `%03d`), and a suffix.

use crate::chars::chars_of;
use vstd::prelude::*;

verus! {

/// Why a template was refused.
#[derive(Debug, Clone, Copy, PartialEq, Eq, Structural)]
pub enum TemplateError {
    /// The name is empty, begins with `%`, or holds a line break after its prefix.
    Invalid,
    /// The width of the placeholder does not fit the machine's word.
    WidthTooLarge,
}

/// An ASCII decimal digit. No other character counts as a digit: a width that holds a
/// digit of another script forms no placeholder, and is kept as text.
pub open spec fn is_digit(c: char) -> bool {
    '0' <= c <= '9'
}

/// The number of leading characters that are not `%`.
pub open spec fn prefix_len(s: Seq<char>) -> nat
    decreases s.len(),
{
    if s.len() == 0 || s[0] == '%' {
        0
    } else {
        1 + prefix_len(s.drop_first())
    }
}

/// The number of digits in a row from `from` on.
pub open spec fn digits_len(s: Seq<char>, from: int) -> nat
    decreases s.len() - from,
{
    if 0 <= from < s.len() && is_digit(s[from]) {
        1 + digits_len(s, from + 1)
    } else {
        0
    }
}

/// The number that a row of digits stands for.
pub open spec fn decimal_value(digits: Seq<char>) -> nat
    decreases digits.len(),
{
    if digits.len() == 0 {
        0
    } else {
        decimal_value(digits.drop_last()) * 10 + (digits.last() as nat - '0' as nat) as nat
    }
}

/// A placeholder, as it stands in a name.
pub struct Placeholder {
    /// Padding is done with zeros, not spaces.
    pub zero: bool,
    /// Where the digits of the width begin.
    pub digits_from: int,
    /// Where the digits of the width end and the `d` stands.
    pub digits_to: int,
}

/// The placeholder that begins at `at`, if one does: `%`, an optional `0`, a width of
/// ASCII digits that begins with a digit from 1 to 9, and `d`.
pub open spec fn placeholder_at(s: Seq<char>, at: int) -> Option<Placeholder> {
    if 0 <= at < s.len() && s[at] == '%' {
        let zero = at + 1 < s.len() && s[at + 1] == '0';
        let from = if zero {
            at + 2
        } else {
            at + 1
        };
        let to = from + digits_len(s, from);
        if from < s.len() && '1' <= s[from] <= '9' && to < s.len() && s[to] == 'd' {
            Some(Placeholder { zero, digits_from: from, digits_to: to })
        } else {
            None
        }
    } else {
        None
    }
}

/// The width of a placeholder is written in ASCII digits alone, the first of them not 0,
/// and `d` follows it. So where any other character stands between `%` and `d`, a digit of
/// another script too, there is no placeholder.
pub proof fn lemma_placeholder_width_is_ascii(s: Seq<char>, at: int)
    requires
        placeholder_at(s, at) is Some,
    ensures
        ({
            let p = placeholder_at(s, at)->0;
            &&& at < p.digits_from < p.digits_to < s.len()
            &&& '1' <= s[p.digits_from] <= '9'
            &&& forall|j: int| p.digits_from <= j < p.digits_to ==> is_digit(#[trigger] s[j])
            &&& s[p.digits_to] == 'd'
        }),
{
    let p = placeholder_at(s, at)->0;
    lemma_digits_are_ascii(s, p.digits_from);
}

proof fn lemma_digits_are_ascii(s: Seq<char>, from: int)
    ensures
        forall|j: int| from <= j < from + digits_len(s, from) ==> is_digit(#[trigger] s[j]),
        0 <= from <= s.len() ==> from + digits_len(s, from) <= s.len(),
    decreases s.len() - from,
{
    if 0 <= from < s.len() && is_digit(s[from]) {
        lemma_digits_are_ascii(s, from + 1);
    }
}

/// What a template is made of.
pub struct TemplateParts {
    pub prefix: Seq<char>,
    pub zero_padded: bool,
    pub digit_width: Option<nat>,
    pub suffix: Seq<char>,
}

/// A name is a template when it begins with at least one character other than `%` and
/// holds no line break after its prefix.
pub open spec fn is_template(s: Seq<char>) -> bool {
    &&& prefix_len(s) >= 1
    &&& forall|i: int| prefix_len(s) <= i < s.len() ==> s[i] != '\n'
}

/// The parts of a template: the prefix runs up to the first `%`; a placeholder right after
/// it gives the padding and the width, and the suffix is what follows the placeholder;
/// without a placeholder the suffix is all that follows the prefix.
pub open spec fn parts_of(s: Seq<char>) -> TemplateParts {
    let n = prefix_len(s) as int;
    match placeholder_at(s, n) {
        Some(p) => TemplateParts {
            prefix: s.take(n),
            zero_padded: p.zero,
            digit_width: Some(decimal_value(s.subrange(p.digits_from, p.digits_to))),
            suffix: s.skip(p.digits_to + 1),
        },
        None => TemplateParts {
            prefix: s.take(n),
            zero_padded: false,
            digit_width: None,
            suffix: s.skip(n),
        },
    }
}

/// The decimal digits of a number, the most significant first.
pub open spec fn decimal_digits(n: nat) -> Seq<char>
    decreases n,
{
    if n < 10 {
        seq![('0' as nat + n) as char]
    } else {
        decimal_digits(n / 10).push(('0' as nat + n % 10) as char)
    }
}

/// A page number as it is printed: its decimal digits, filled up from the left to `width`
/// characters, with zeros or with spaces.
pub open spec fn padded_number(page: nat, width: nat, zero: bool) -> Seq<char> {
    let digits = decimal_digits(page);
    let fill = if zero {
        '0'
    } else {
        ' '
    };
    if digits.len() >= width {
        digits
    } else {
        Seq::new((width - digits.len()) as nat, |i: int| fill) + digits
    }
}

/// The file name that a template gives for a page.
pub open spec fn filename_of(parts: TemplateParts, page: nat) -> Seq<char> {
    match parts.digit_width {
        Some(width) => parts.prefix + padded_number(page, width, parts.zero_padded)
            + parts.suffix,
        None => parts.prefix + parts.suffix,
    }
}

/// `String::push` of std: appends one character.
#[verifier::external_body]
fn push_char(s: &mut String, c: char)
    ensures
        final(s)@ == old(s)@.push(c),
{
    s.push(c);
}

/// The characters from `from` up to `to` as a string.
fn string_of(chars: &Vec<char>, from: usize, to: usize) -> (s: String)
    requires
        from <= to <= chars@.len(),
    ensures
        s@ == chars@.subrange(from as int, to as int),
{
    let mut s = String::new();
    let mut i = from;
    while i < to
        invariant
            from <= i <= to <= chars@.len(),
            s@ == chars@.subrange(from as int, i as int),
        decreases to - i,
    {
        push_char(&mut s, chars[i]);
        i = i + 1;
        assert(chars@.subrange(from as int, i as int) == chars@.subrange(
            from as int,
            i - 1,
        ).push(chars@[i - 1]));
    }
    s
}

proof fn lemma_prefix_len(s: Seq<char>, i: int)
    requires
        0 <= i <= s.len(),
        forall|j: int| 0 <= j < i ==> s[j] != '%',
        i == s.len() || s[i] == '%',
    ensures
        prefix_len(s) == i,
    decreases i,
{
    if i > 0 {
        let t = s.drop_first();
        assert forall|j: int| 0 <= j < i - 1 implies t[j] != '%' by {
            assert(t[j] == s[j + 1]);
        }
        lemma_prefix_len(t, i - 1);
    }
}

proof fn lemma_digits_len(s: Seq<char>, from: int, to: int)
    requires
        0 <= from <= to <= s.len(),
        forall|j: int| from <= j < to ==> is_digit(s[j]),
        to == s.len() || !is_digit(s[to]),
    ensures
        digits_len(s, from) == to - from,
    decreases to - from,
{
    if from < to {
        lemma_digits_len(s, from + 1, to);
    }
}

/// A file name template.
#[derive(Debug, Clone, PartialEq, Eq)]
pub struct FilenameTemplate {
    prefix: String,
    zero_padded: bool,
    digit_width: Option<usize>,
    suffix: String,
}

impl View for FilenameTemplate {
    type V = TemplateParts;

    closed spec fn view(&self) -> TemplateParts {
        TemplateParts {
            prefix: self.prefix@,
            zero_padded: self.zero_padded,
            digit_width: match self.digit_width {
                Some(w) => Some(w as nat),
                None => None,
            },
            suffix: self.suffix@,
        }
    }
}

impl FilenameTemplate {
    /// Reads a template from the file name part of an output path. What follows the prefix
    /// and does not form a placeholder, such as `%d` or a width with a digit that is not
    /// ASCII, is text of the suffix.
    pub fn new(filename: &str) -> (r: Result<Self, TemplateError>)
        ensures
            r is Ok <==> is_template(filename@) && (parts_of(filename@).digit_width matches Some(
                w,
            ) ==> w <= usize::MAX),
            r matches Ok(t) ==> t@ == parts_of(filename@),
            r matches Err(e) ==> e == (if is_template(filename@) {
                TemplateError::WidthTooLarge
            } else {
                TemplateError::Invalid
            }),
    {
        let chars = chars_of(filename);
        let len = chars.len();
        // The prefix: everything before the first `%`.
        let mut n: usize = 0;
        while n < len && chars[n] != '%'
            invariant
                n <= len == chars@.len(),
                forall|j: int| 0 <= j < n ==> chars@[j] != '%',
            decreases len - n,
        {
            n = n + 1;
        }
        proof {
            lemma_prefix_len(chars@, n as int);
        }
        if n == 0 {
            return Err(TemplateError::Invalid);
        }
        // No line break may follow the prefix.
        let mut k: usize = n;
        while k < len
            invariant
                1 <= n <= k <= len == chars@.len(),
                chars@ == filename@,
                prefix_len(chars@) == n,
                forall|j: int| n <= j < k ==> chars@[j] != '\n',
            decreases len - k,
        {
            if chars[k] == '\n' {
                assert(!is_template(chars@)) by {
                    assert(chars@[k as int] == '\n');
                }
                return Err(TemplateError::Invalid);
            }
            k = k + 1;
        }
        assert(is_template(chars@));
        if n == len {
            return Ok(
                FilenameTemplate {
                    prefix: string_of(&chars, 0, n),
                    zero_padded: false,
                    digit_width: None,
                    suffix: string_of(&chars, n, len),
                },
            );
        }
        // The placeholder, if one follows the prefix.
        let zero = n + 1 < len && chars[n + 1] == '0';
        let from: usize = if zero {
            n + 2
        } else {
            n + 1
        };
        if from < len && '1' <= chars[from] && chars[from] <= '9' {
            let mut to: usize = from;
            let mut width: usize = 0;
            let mut too_large = false;
            while to < len && '0' <= chars[to] && chars[to] <= '9'
                invariant
                    from <= to <= len == chars@.len(),
                    forall|j: int| from <= j < to ==> is_digit(chars@[j]),
                    !too_large ==> width == decimal_value(
                        chars@.subrange(from as int, to as int),
                    ),
                    too_large ==> decimal_value(chars@.subrange(from as int, to as int))
                        > usize::MAX,
                decreases len - to,
            {
                let digit = (chars[to] as u32 - '0' as u32) as usize;
                proof {
                    let before = chars@.subrange(from as int, to as int);
                    let after = chars@.subrange(from as int, to + 1);
                    assert(after.drop_last() == before);
                    assert(after.last() == chars@[to as int]);
                }
                if !too_large {
                    if width > (usize::MAX - digit) / 10 {
                        too_large = true;
                    } else {
                        width = width * 10 + digit;
                    }
                }
                to = to + 1;
            }
            proof {
                lemma_digits_len(chars@, from as int, to as int);
            }
            if to < len && chars[to] == 'd' {
                if too_large {
                    return Err(TemplateError::WidthTooLarge);
                }
                return Ok(
                    FilenameTemplate {
                        prefix: string_of(&chars, 0, n),
                        zero_padded: zero,
                        digit_width: Some(width),
                        suffix: string_of(&chars, to + 1, len),
                    },
                );
            }
        }
        Ok(
            FilenameTemplate {
                prefix: string_of(&chars, 0, n),
                zero_padded: false,
                digit_width: None,
                suffix: string_of(&chars, n, len),
            },
        )
    }

    pub fn prefix(&self) -> (s: &str)
        ensures
            s@ == self@.prefix,
    {
        self.prefix.as_str()
    }

    pub fn suffix(&self) -> (s: &str)
        ensures
            s@ == self@.suffix,
    {
        self.suffix.as_str()
    }

    pub fn zero_padded(&self) -> (z: bool)
        ensures
            z == self@.zero_padded,
    {
        self.zero_padded
    }

    pub fn digit_width(&self) -> (w: Option<usize>)
        ensures
            match w {
                Some(w) => self@.digit_width == Some(w as nat),
                None => self@.digit_width is None,
            },
    {
        self.digit_width
    }

    /// The file name for a page: prefix, the page number padded to the placeholder's width
    /// if the template has a placeholder, and suffix.
    pub fn filename(&self, page_num: u32) -> (name: String)
        ensures
            name@ == filename_of(self@, page_num as nat),
    {
        let mut name = String::new();
        let prefix = chars_of(self.prefix.as_str());
        let suffix = chars_of(self.suffix.as_str());
        push_all(&mut name, &prefix);
        if let Some(width) = self.digit_width {
            let digits = digits_of(page_num);
            let fill = if self.zero_padded {
                '0'
            } else {
                ' '
            };
            let pad: usize = if digits.len() >= width {
                0
            } else {
                width - digits.len()
            };
            let mut i: usize = 0;
            while i < pad
                invariant
                    i <= pad,
                    name@ == self.prefix@ + Seq::new(i as nat, |j: int| fill),
                decreases pad - i,
            {
                push_char(&mut name, fill);
                i = i + 1;
                assert(Seq::new(i as nat, |j: int| fill) =~= Seq::new(
                    (i - 1) as nat,
                    |j: int| fill,
                ).push(fill));
            }
            assert(name@ + digits@ =~= self.prefix@ + padded_number(
                page_num as nat,
                width as nat,
                self.zero_padded,
            ));
            push_all(&mut name, &digits);
        }
        push_all(&mut name, &suffix);
        name
    }
}

/// Appends the characters to the string.
fn push_all(s: &mut String, chars: &Vec<char>)
    ensures
        final(s)@ == old(s)@ + chars@,
{
    let mut i: usize = 0;
    while i < chars.len()
        invariant
            i <= chars@.len(),
            s@ == old(s)@ + chars@.take(i as int),
        decreases chars.len() - i,
    {
        push_char(s, chars[i]);
        i = i + 1;
        assert(chars@.take(i as int) == chars@.take(i - 1).push(chars@[i - 1]));
    }
    assert(chars@.take(i as int) == chars@);
}

/// A digit as a character.
fn digit_char(d: u32) -> (c: char)
    requires
        d < 10,
    ensures
        c == ('0' as nat + d) as char,
{
    match d {
        0 => '0',
        1 => '1',
        2 => '2',
        3 => '3',
        4 => '4',
        5 => '5',
        6 => '6',
        7 => '7',
        8 => '8',
        _ => '9',
    }
}

/// The decimal digits of a number.
pub fn digits_of(n: u32) -> (digits: Vec<char>)
    ensures
        digits@ == decimal_digits(n as nat),
    decreases n,
{
    if n < 10 {
        let mut digits = Vec::new();
        digits.push(digit_char(n));
        digits
    } else {
        let mut digits = digits_of(n / 10);
        digits.push(digit_char(n % 10));
        digits
    }
}

} // verus!
