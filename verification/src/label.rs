//! Button labels: the text of a button and the character that activates it,
//! given outright or read from the label by the parenthesis rule.

use vstd::prelude::*;
use vstd::std_specs::cmp::PartialEqSpecImpl;
use vstd::std_specs::convert::TryFromSpecImpl;
use vstd::string::*;
use vstd::slice::*;
use vstd::utf8::encode_utf8;
use crate::helper::least;
use ratatui::style::Style;

verus! {

/// The error of reading a label from an empty string.
#[derive(Debug, Clone, Copy, PartialEq, Eq, Structural)]
pub struct TryFromSliceError;

impl TryFromSliceError {
    /// The fixed wording of the error.
    pub fn description(&self) -> (text: &'static str)
        ensures
            text@ == "could not convert slice to array"@,
    {
        "could not convert slice to array"
    }
}

/// A button's label: its text and the character that activates the button.
#[derive(Debug)]
pub struct ButtonLabel {
    pub label: String,
    /// The character that activates the button: the dialog compares it with
    /// the character of a key as it is. A label that is read from a string
    /// has it in lowercase; one that is built from its parts has it as given.
    pub control: char,
    /// The style of the label where it is shown by itself. A dialog paints
    /// its buttons in its own styles and does not look at this one.
    pub style: Option<Style>,
}

/// What a label is to the dialog: its text and its control character.
pub struct LabelView {
    pub label: Seq<char>,
    pub control: char,
}

/// Whether the `regex` crate counts `c` among its word characters, the class
/// `\w`: the letters, marks, decimal digits, connector punctuation and join
/// controls of Unicode.
pub uninterp spec fn word_char(c: char) -> bool;

/// The lowercase form of `c` as std's `char::to_lowercase` yields it: the
/// lowercase mapping of Unicode, one character or more, and `c` itself where
/// it has none.
pub uninterp spec fn lowercase_of(c: char) -> Seq<char>;

/// The control character that `c` gives, once its lowercase form `lowered` is
/// known: that form where it is a single character, else `c` as it is.
pub open spec fn control_of(c: char, lowered: Seq<char>) -> char {
    if lowered.len() == 1 {
        lowered[0]
    } else {
        c
    }
}

/// The control character that `c` gives: its lowercase form, or `c` itself
/// where that form is not a single character.
pub open spec fn lower(c: char) -> char {
    control_of(c, lowercase_of(c))
}

/// The number of bytes that `s` takes in UTF-8.
pub open spec fn byte_len(s: Seq<char>) -> int {
    encode_utf8(s).len() as int
}

/// Whether a word character in parentheses starts at index `i` of `s`.
pub open spec fn group_at(s: Seq<char>, i: int) -> bool {
    &&& 0 <= i
    &&& i + 2 < s.len()
    &&& s[i] == '('
    &&& word_char(s[i + 1])
    &&& s[i + 2] == ')'
}

/// Whether `s` holds a word character in parentheses anywhere.
pub open spec fn has_group(s: Seq<char>) -> bool {
    exists|i: int| group_at(s, i)
}

/// Whether the leftmost word character in parentheses of `s` starts at `i`.
pub open spec fn is_first_group(s: Seq<char>, i: int) -> bool {
    &&& group_at(s, i)
    &&& forall|j: int| 0 <= j < i ==> !group_at(s, j)
}

/// Where the leftmost word character in parentheses of `s` starts. It means
/// something only where `has_group(s)`.
pub open spec fn first_group(s: Seq<char>) -> int {
    choose|i: int| is_first_group(s, i)
}

/// `s` with its first character put in parentheses.
pub open spec fn wrapped(s: Seq<char>) -> Seq<char>
    recommends
        s.len() > 0,
{
    seq!['(', s[0], ')'] + s.subrange(1, s.len() as int)
}

/// The character that the leftmost pair of parentheses round a word character
/// holds, `None` where `s` has no such pair.
pub open spec fn mnemonic(s: Seq<char>) -> Option<char> {
    if has_group(s) {
        Some(s[first_group(s) + 1])
    } else {
        None
    }
}

/// The label with the text of `s` and the given control, `None` for the empty
/// string. A string that is `marked`, that is, holds its control in
/// parentheses already, is its own label; any other gets its first character
/// wrapped in parentheses.
pub open spec fn label_of(s: Seq<char>, marked: bool, control: char) -> Option<LabelView> {
    if s.len() == 0 {
        None
    } else {
        Some(
            LabelView {
                label: if marked {
                    s
                } else {
                    wrapped(s)
                },
                control,
            },
        )
    }
}

/// The character of `s` that becomes its control: the mnemonic, or without
/// one the first character.
pub open spec fn control_source(s: Seq<char>, mnemonic: Option<char>) -> char {
    match mnemonic {
        Some(c) => c,
        None => s[0],
    }
}

/// The label that `s` stands for once its mnemonic is known, `None` for the
/// empty string.
///
/// With a mnemonic, the string is its own label and the mnemonic, in
/// lowercase, is the control. Without one, the first character is wrapped in
/// parentheses and is, in lowercase, the control. A character whose
/// lowercase form is not a single character is the control as it is.
pub open spec fn label_with(s: Seq<char>, mnemonic: Option<char>) -> Option<LabelView> {
    label_of(s, mnemonic is Some, lower(control_source(s, mnemonic)))
}

/// The label that a string stands for, `None` for the empty string.
///
/// A string that holds a word character in parentheses is its own label, and
/// the leftmost such character, in lowercase, is the control. Any other string
/// gets its first character wrapped in parentheses, and that character, in
/// lowercase, is the control.
pub open spec fn parse_label(s: Seq<char>) -> Option<LabelView> {
    label_with(s, mnemonic(s))
}

/// Where there is a group at all, one of them is the leftmost, and
/// `first_group` names it.
pub proof fn lemma_first_group_exists(s: Seq<char>)
    requires
        has_group(s),
    ensures
        is_first_group(s, first_group(s)),
{
    let w = choose|w: int| group_at(s, w);
    lemma_group_before(s, w);
}

/// A group at `w` is the leftmost, or has the leftmost before it.
proof fn lemma_group_before(s: Seq<char>, w: int)
    requires
        group_at(s, w),
    ensures
        exists|i: int| is_first_group(s, i),
    decreases w,
{
    if exists|j: int| 0 <= j < w && group_at(s, j) {
        let j = choose|j: int| 0 <= j < w && group_at(s, j);
        lemma_group_before(s, j);
    } else {
        assert(is_first_group(s, w));
    }
}

/// The leftmost group is the only index that `is_first_group` accepts.
pub proof fn lemma_first_group_unique(s: Seq<char>, i: int)
    requires
        is_first_group(s, i),
    ensures
        has_group(s),
        first_group(s) == i,
{
    let k = first_group(s);
    assert(is_first_group(s, k));
    if k < i {
        assert(!group_at(s, k));
    }
    if i < k {
        assert(!group_at(s, i));
    }
}

/// Asks the `regex` crate whether its class `\w` holds `c`, by matching the
/// pattern `\w` against the string made of `c` alone. The answer depends on
/// `c` only, and `word_char` is its name.
#[verifier::external_body]
fn is_word_char(c: char) -> (word: bool)
    ensures
        word == word_char(c),
{
    let mut bytes = [0u8; 4];
    regex::Regex::new("\\w").is_ok_and(|class| class.is_match(c.encode_utf8(&mut bytes)))
}

/// Asks std's `char::to_lowercase` for the lowercase form of `c` and collects
/// the characters it yields. The answer depends on `c` only, and
/// `lowercase_of` is its name.
#[verifier::external_body]
fn lowercase(c: char) -> (lowered: Vec<char>)
    ensures
        lowered@ == lowercase_of(c),
{
    c.to_lowercase().collect()
}

/// The control character that `c` gives, once its lowercase form `lowered` is
/// known: that form where it is a single character, else `c` as it is.
pub fn control_from(c: char, lowered: &Vec<char>) -> (control: char)
    ensures
        control == control_of(c, lowered@),
{
    if lowered.len() == 1 {
        lowered[0]
    } else {
        c
    }
}

/// The control character that `c` gives: its lowercase form, or `c` itself
/// where that form is not a single character.
pub fn to_lower(c: char) -> (control: char)
    ensures
        control == lower(c),
{
    control_from(c, &lowercase(c))
}

/// The characters of `value`, in order.
fn characters(value: &str) -> (chars: Vec<char>)
    ensures
        chars@ == value@,
{
    let mut chars: Vec<char> = Vec::new();
    for c in it: value.chars()
        invariant
            chars@ == it.seq().take(it.index()),
    {
        chars.push(c);
    }
    chars
}

/// Searches `chars` from the left for a word character in parentheses and
/// gives the index of its opening parenthesis.
fn scan(chars: &Vec<char>) -> (group: Option<usize>)
    ensures
        match group {
            Some(i) => is_first_group(chars@, i as int),
            None => !has_group(chars@),
        },
{
    let n = chars.len();
    if n < 3 {
        return None;
    }
    let mut i: usize = 0;
    while i < n - 2
        invariant
            n == chars@.len(),
            n >= 3,
            i <= n - 2,
            forall|j: int| 0 <= j < i ==> !group_at(chars@, j),
        decreases n - i,
    {
        if chars[i] == '(' && chars[i + 2] == ')' && is_word_char(chars[i + 1]) {
            return Some(i);
        }
        i += 1;
    }
    None
}

/// Searches `value` from the left for a word character in parentheses and
/// gives the index of its opening parenthesis, counted in characters.
pub fn find_group(value: &str) -> (group: Option<usize>)
    ensures
        match group {
            Some(i) => is_first_group(value@, i as int),
            None => !has_group(value@),
        },
{
    scan(&characters(value))
}

/// Searches `value` from the left for a word character in parentheses and
/// gives that character.
pub fn find_mnemonic(value: &str) -> (found: Option<char>)
    ensures
        found == mnemonic(value@),
{
    let chars = characters(value);
    match scan(&chars) {
        Some(i) => {
            proof {
                lemma_first_group_unique(value@, i as int);
            }
            assert(i + 2 < chars.len());
            Some(chars[i + 1])
        },
        None => None,
    }
}

impl View for ButtonLabel {
    type V = LabelView;

    open spec fn view(&self) -> LabelView {
        LabelView { label: self.label@, control: self.control }
    }
}

impl ButtonLabel {
    /// A label with the given text and control character, taken as they are.
    pub fn new(label: &str, control: char) -> (b: ButtonLabel)
        ensures
            b.label@ == label@,
            b.control == control,
            b.style is None,
    {
        ButtonLabel { label: String::from_str(label), control, style: None }
    }

    /// The affirmative label `(Y)es`, activated by `y`.
    pub fn yes() -> (b: ButtonLabel)
        ensures
            b.label@ == "(Y)es"@,
            b.control == 'y',
            b.style is None,
    {
        ButtonLabel::new("(Y)es", 'y')
    }

    /// The negative label `(N)o`, activated by `n`.
    pub fn no() -> (b: ButtonLabel)
        ensures
            b.label@ == "(N)o"@,
            b.control == 'n',
            b.style is None,
    {
        ButtonLabel::new("(N)o", 'n')
    }

    /// Reads a label from a string by the parenthesis rule.
    pub fn from(label: &str) -> (r: Result<ButtonLabel, TryFromSliceError>)
        ensures
            match r {
                Ok(b) => parse_label(label@) == Some(b@) && b.style is None,
                Err(_) => parse_label(label@) is None,
            },
    {
        ButtonLabel::from_mnemonic(label, find_mnemonic(label))
    }

    /// Builds the label of `value` once the search for a word character in
    /// parentheses is done: `mnemonic` is the character that the search
    /// found, or `None`.
    ///
    /// The empty string is no label. With a mnemonic, the string is the label
    /// and the mnemonic, in lowercase, is the control. Without one, the first
    /// character is wrapped in parentheses and is, in lowercase, the control.
    pub fn from_mnemonic(value: &str, mnemonic: Option<char>) -> (r: Result<
        ButtonLabel,
        TryFromSliceError,
    >)
        ensures
            match r {
                Ok(b) => label_with(value@, mnemonic) == Some(b@) && b.style is None,
                Err(_) => label_with(value@, mnemonic) is None,
            },
    {
        if value.unicode_len() == 0 {
            return Err(TryFromSliceError);
        }
        let source = match mnemonic {
            Some(c) => c,
            None => value.get_char(0),
        };
        ButtonLabel::with_control(value, mnemonic.is_some(), to_lower(source))
    }

    /// Builds the label of `value` with the control given. A `marked` value
    /// holds its control in parentheses already and is the label; any other
    /// gets its first character wrapped in parentheses. The empty string is
    /// no label.
    pub fn with_control(value: &str, marked: bool, control: char) -> (r: Result<
        ButtonLabel,
        TryFromSliceError,
    >)
        ensures
            match r {
                Ok(b) => label_of(value@, marked, control) == Some(b@) && b.style is None,
                Err(_) => label_of(value@, marked, control) is None,
            },
    {
        let n = value.unicode_len();
        if n == 0 {
            return Err(TryFromSliceError);
        }
        if marked {
            Ok(ButtonLabel { label: String::from_str(value), control, style: None })
        } else {
            let mut label = String::from_str("(");
            label.append(value.substring_char(0, 1));
            label.append(")");
            label.append(value.substring_char(1, n));
            proof {
                reveal_strlit("(");
                reveal_strlit(")");
                assert(label@ =~= wrapped(value@));
            }
            Ok(ButtonLabel { label, control, style: None })
        }
    }

    /// The length of the label: that of its text in bytes, and two more.
    pub open spec fn spec_len(&self) -> int {
        byte_len(self.label@) + 2
    }

    /// The length of the label, `spec_len`, as far as a `usize` can hold it.
    /// A dialog does not go by it: it measures the label in cells.
    pub fn len(&self) -> (n: usize)
        ensures
            n == least(self.spec_len(), usize::MAX as int),
    {
        broadcast use axiom_spec_len;

        self.label.as_str().as_bytes().len().saturating_add(2)
    }

    /// The same label with `style` in place of its style.
    pub fn with_style(self, style: Option<Style>) -> (b: ButtonLabel)
        ensures
            b == (ButtonLabel { style, ..self }),
    {
        let mut b = self;
        b.style = style;
        b
    }
}

impl<'a> TryFrom<&'a str> for ButtonLabel {
    type Error = TryFromSliceError;

    /// Reads a label from a string by the parenthesis rule.
    fn try_from(value: &'a str) -> (r: Result<ButtonLabel, TryFromSliceError>)
        ensures
            match r {
                Ok(b) => parse_label(value@) == Some(b@) && b.style is None,
                Err(_) => parse_label(value@) is None,
            },
    {
        ButtonLabel::from(value)
    }
}

impl<'a> TryFromSpecImpl<&'a str> for ButtonLabel {
    open spec fn obeys_try_from_spec() -> bool {
        false
    }

    open spec fn try_from_spec(v: &'a str) -> Result<ButtonLabel, TryFromSliceError> {
        Err(TryFromSliceError)
    }
}

impl Clone for ButtonLabel {
    /// A label with the same text, control and style.
    fn clone(&self) -> (copy: ButtonLabel)
        ensures
            copy == *self,
    {
        ButtonLabel { label: self.label.clone(), control: self.control, style: self.style }
    }
}

impl PartialEq for ButtonLabel {
    /// Two labels are equal when their texts and their controls are; the
    /// style does not count.
    fn eq(&self, other: &ButtonLabel) -> (r: bool) {
        self.control == other.control && self.label == other.label
    }
}

impl PartialEqSpecImpl for ButtonLabel {
    open spec fn obeys_eq_spec() -> bool {
        true
    }

    open spec fn eq_spec(&self, other: &ButtonLabel) -> bool {
        self.control == other.control && self.label@ == other.label@
    }
}

/// A string that holds a word character in parentheses is its own label, and
/// the leftmost such character, in lowercase, is its control.
pub proof fn law_marked_label_is_kept(s: Seq<char>, i: int)
    requires
        is_first_group(s, i),
    ensures
        parse_label(s) == Some(LabelView { label: s, control: lower(s[i + 1]) }),
{
    lemma_first_group_unique(s, i);
}

/// A string that is not empty and holds no parenthesis becomes the label with
/// its first character in parentheses, and that character, in lowercase, is
/// its control.
pub proof fn law_plain_label_is_wrapped(s: Seq<char>)
    requires
        s.len() > 0,
        forall|i: int| 0 <= i < s.len() ==> s[i] != '(' && s[i] != ')',
    ensures
        parse_label(s) == Some(LabelView { label: wrapped(s), control: lower(s[0]) }),
{
}

/// Whether the character at index `k` of `label` stands in parentheses and
/// gives `control`.
pub open spec fn marks(label: Seq<char>, k: int, control: char) -> bool {
    &&& 0 < k
    &&& k + 1 < label.len()
    &&& label[k - 1] == '('
    &&& lower(label[k]) == control
    &&& label[k + 1] == ')'
}

/// In every label that is read from a string, the character that gives the
/// control stands in parentheses.
pub proof fn law_control_is_marked(s: Seq<char>)
    requires
        s.len() > 0,
    ensures
        parse_label(s) matches Some(v) && exists|k: int| marks(v.label, k, v.control),
{
    let v = parse_label(s)->0;
    if has_group(s) {
        lemma_first_group_exists(s);
        assert(marks(v.label, first_group(s) + 1, v.control));
    } else {
        assert(marks(v.label, 1, v.control));
    }
}

} // verus!
