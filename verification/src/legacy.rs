//! Legacy text: strings in which a delimiter followed by a code character
//! sets a color or a format for the text after it.
//!
//! [`map_to_tree`] arranges the pieces of such a text in a tree of parts, and
//! [`ExpandedChatPart::to_chat`] makes a component of the tree. The sixteen
//! color codes are `0` to `9` and `a` to `f`; the format codes are `k`
//! (obfuscated), `l` (bold), `m` (strikethrough), `n` (underlined) and `o`
//! (italic); `r` resets.

use vstd::prelude::*;
use vstd::string::*;
use crate::color::{ColorView, TextColor};
use crate::component::{Chat, ChatView};

verus! {

/// Whether `pattern` stands in `value` at place `at`.
pub open spec fn matches_at(value: Seq<char>, pattern: Seq<char>, at: int) -> bool {
    &&& 0 <= at
    &&& at + pattern.len() <= value.len()
    &&& value.subrange(at, at + pattern.len()) == pattern
}

/// The last place at which `pattern` stands in `value`, or -1 where it
/// stands nowhere.
#[verifier::opaque]
pub open spec fn last_match(value: Seq<char>, pattern: Seq<char>) -> int {
    if exists|at: int| matches_at(value, pattern, at) {
        choose|at: int|
            matches_at(value, pattern, at) && forall|later: int|
                at < later ==> !matches_at(value, pattern, later)
    } else {
        -1
    }
}

/// The pieces that a non-empty `pattern` cuts `value` into, the rightmost
/// first. The pattern is looked for from the right, and a place that it
/// takes is not part of a further match.
pub open spec fn rsplit(value: Seq<char>, pattern: Seq<char>) -> Seq<Seq<char>>
    decreases value.len(),
{
    let at = last_match(value, pattern);
    if pattern.len() > 0 && 0 <= at && at + pattern.len() <= value.len() {
        seq![value.subrange(at + pattern.len(), value.len() as int)] + rsplit(
            value.subrange(0, at),
            pattern,
        )
    } else {
        seq![value]
    }
}

/// The characters of a string.
pub fn chars_of(text: &str) -> (chars: Vec<char>)
    ensures
        chars@ == text@,
{
    let length = text.unicode_len();
    let mut chars: Vec<char> = Vec::new();
    let mut i: usize = 0;
    while i < length
        invariant
            i <= length,
            length == text@.len(),
            chars@ == text@.subrange(0, i as int),
        decreases length - i,
    {
        chars.push(text.get_char(i));
        assert(chars@ =~= text@.subrange(0, i + 1));
        i += 1;
    }
    assert(chars@ =~= text@);
    chars
}

/// Whether `pattern` stands in `value` at place `at`.
fn stands_at(value: &Vec<char>, pattern: &Vec<char>, at: usize) -> (yes: bool)
    requires
        at + pattern.len() <= value.len(),
    ensures
        yes == matches_at(value@, pattern@, at as int),
{
    let mut i: usize = 0;
    while i < pattern.len()
        invariant
            i <= pattern.len(),
            at + pattern.len() <= value.len(),
            forall|j: int| 0 <= j < i ==> value[at + j] == pattern[j],
        decreases pattern.len() - i,
    {
        if value[at + i] != pattern[i] {
            assert(value@.subrange(at as int, at + pattern.len())[i as int] != pattern@[i as int]);
            return false;
        }
        i += 1;
    }
    assert(value@.subrange(at as int, at + pattern.len()) =~= pattern@);
    true
}

/// The last place at which `pattern` stands in the first `end` characters
/// of `value`.
fn find_last(value: &Vec<char>, end: usize, pattern: &Vec<char>) -> (found: Option<usize>)
    requires
        end <= value.len(),
        pattern.len() > 0,
    ensures
        match found {
            Some(at) => at + pattern.len() <= end && last_match(
                value@.subrange(0, end as int),
                pattern@,
            ) == at,
            None => last_match(value@.subrange(0, end as int), pattern@) == -1,
        },
{
    reveal(last_match);
    let ghost prefix = value@.subrange(0, end as int);
    if pattern.len() > end {
        assert(forall|at: int| !matches_at(prefix, pattern@, at));
        return None;
    }
    let mut at: usize = end - pattern.len();
    loop
        invariant
            at + pattern.len() <= end <= value.len(),
            pattern.len() > 0,
            prefix == value@.subrange(0, end as int),
            forall|later: int| at < later ==> !matches_at(prefix, pattern@, later),
        decreases at,
    {
        assert(prefix.subrange(at as int, at + pattern.len()) =~= value@.subrange(
            at as int,
            at + pattern.len(),
        ));
        if stands_at(value, pattern, at) {
            reveal(last_match);
            assert(matches_at(prefix, pattern@, at as int));
            return Some(at);
        }
        if at == 0 {
            reveal(last_match);
            assert(forall|any: int| !matches_at(prefix, pattern@, any));
            return None;
        }
        at -= 1;
    }
}

/// The pieces that a non-empty `pattern` cuts `value` into, the rightmost
/// first, each as the places where it starts and ends.
#[verifier::rlimit(40)]
pub fn rsplit_ranges(value: &Vec<char>, pattern: &Vec<char>) -> (ranges: Vec<(usize, usize)>)
    requires
        pattern.len() > 0,
    ensures
        ranges.len() == rsplit(value@, pattern@).len(),
        forall|i: int|
            0 <= i < ranges.len() ==> (#[trigger] ranges[i]).0 <= ranges[i].1 <= value.len()
                && value@.subrange(ranges[i].0 as int, ranges[i].1 as int) == rsplit(
                value@,
                pattern@,
            )[i],
{
    let mut ranges: Vec<(usize, usize)> = Vec::new();
    let mut end: usize = value.len();
    let ghost all = rsplit(value@, pattern@);
    assert(value@.subrange(0, end as int) =~= value@);
    loop
        invariant
            end <= value.len(),
            pattern.len() > 0,
            all == rsplit(value@, pattern@),
            all.len() == ranges.len() + rsplit(value@.subrange(0, end as int), pattern@).len(),
            forall|i: int|
                0 <= i < ranges.len() ==> (#[trigger] ranges[i]).0 <= ranges[i].1 <= value.len()
                    && value@.subrange(ranges[i].0 as int, ranges[i].1 as int) == all[i],
            forall|i: int|
                ranges.len() <= i < all.len() ==> #[trigger] all[i] == rsplit(
                    value@.subrange(0, end as int),
                    pattern@,
                )[i - ranges.len()],
        decreases end,
    {
        let ghost prefix = value@.subrange(0, end as int);
        let ghost rest = rsplit(prefix, pattern@);
        let ghost done = ranges.len() as int;
        match find_last(value, end, pattern) {
            Some(at) => {
                let ghost shorter = value@.subrange(0, at as int);
                let ghost piece = value@.subrange(at + pattern.len(), end as int);
                proof {
                    assert(prefix.subrange(at + pattern.len(), prefix.len() as int) =~= piece);
                    assert(prefix.subrange(0, at as int) =~= shorter);
                    assert(rest == seq![piece] + rsplit(shorter, pattern@));
                    assert(rest[0] == piece);
                    assert(all[done] == piece);
                    assert forall|i: int| done + 1 <= i < all.len() implies #[trigger] all[i]
                        == rsplit(shorter, pattern@)[i - (done + 1)] by {
                        assert(all[i] == rest[i - done]);
                    }
                }
                ranges.push((at + pattern.len(), end));
                end = at;
            },
            None => {
                proof {
                    assert(rest =~= seq![prefix]);
                    assert(all[done] == prefix);
                }
                ranges.push((0, end));
                return ranges;
            },
        }
    }
}

/// The formats that a part sets, besides its color.
#[derive(Clone, Copy, Debug, PartialEq, Eq, Hash, Structural)]
pub struct ExtraStyle {
    pub obfuscated: bool,
    pub bold: bool,
    pub strikethrough: bool,
    pub underlined: bool,
    pub italic: bool,
}

impl ExtraStyle {
    /// No format.
    pub open spec fn spec_none() -> ExtraStyle {
        ExtraStyle {
            obfuscated: false,
            bold: false,
            strikethrough: false,
            underlined: false,
            italic: false,
        }
    }

    /// Whether no format is set.
    pub open spec fn spec_is_empty(self) -> bool {
        self == Self::spec_none()
    }

    /// How many formats are set.
    pub open spec fn spec_len(self) -> nat {
        (if self.obfuscated {
            1nat
        } else {
            0nat
        }) + (if self.bold {
            1nat
        } else {
            0nat
        }) + (if self.strikethrough {
            1nat
        } else {
            0nat
        }) + (if self.underlined {
            1nat
        } else {
            0nat
        }) + (if self.italic {
            1nat
        } else {
            0nat
        })
    }

    /// The formats with that of `code` set as well; a character that is no
    /// format code changes nothing.
    pub open spec fn spec_insert(self, code: char) -> ExtraStyle {
        if code == 'k' {
            ExtraStyle { obfuscated: true, ..self }
        } else if code == 'l' {
            ExtraStyle { bold: true, ..self }
        } else if code == 'm' {
            ExtraStyle { strikethrough: true, ..self }
        } else if code == 'n' {
            ExtraStyle { underlined: true, ..self }
        } else if code == 'o' {
            ExtraStyle { italic: true, ..self }
        } else {
            self
        }
    }

    /// No format.
    #[verifier::when_used_as_spec(spec_none)]
    pub fn none() -> (style: ExtraStyle)
        ensures
            style == Self::spec_none(),
    {
        ExtraStyle {
            obfuscated: false,
            bold: false,
            strikethrough: false,
            underlined: false,
            italic: false,
        }
    }

    /// Whether no format is set.
    #[verifier::when_used_as_spec(spec_is_empty)]
    pub fn is_empty(self) -> (yes: bool)
        ensures
            yes == self.spec_is_empty(),
    {
        !self.obfuscated && !self.bold && !self.strikethrough && !self.underlined && !self.italic
    }

    /// How many formats are set.
    pub fn len(self) -> (count: usize)
        ensures
            count == self.spec_len(),
    {
        let mut count: usize = 0;
        if self.obfuscated {
            count += 1;
        }
        if self.bold {
            count += 1;
        }
        if self.strikethrough {
            count += 1;
        }
        if self.underlined {
            count += 1;
        }
        if self.italic {
            count += 1;
        }
        count
    }

    /// The formats with that of `code` set as well.
    #[verifier::when_used_as_spec(spec_insert)]
    pub fn insert(self, code: char) -> (style: ExtraStyle)
        ensures
            style == self.spec_insert(code),
    {
        if code == 'k' {
            ExtraStyle { obfuscated: true, ..self }
        } else if code == 'l' {
            ExtraStyle { bold: true, ..self }
        } else if code == 'm' {
            ExtraStyle { strikethrough: true, ..self }
        } else if code == 'n' {
            ExtraStyle { underlined: true, ..self }
        } else if code == 'o' {
            ExtraStyle { italic: true, ..self }
        } else {
            self
        }
    }
}

/// Whether `code` is one of the five format codes.
pub open spec fn is_format_code(code: char) -> bool {
    code == 'k' || code == 'l' || code == 'm' || code == 'n' || code == 'o'
}

/// The color of a color code: `0` to `9` and `a` to `f`, in the order of
/// the sixteen named colors.
pub open spec fn code_color(code: char) -> Option<ColorView> {
    if code == '0' {
        Some(ColorView::Black)
    } else if code == '1' {
        Some(ColorView::DarkBlue)
    } else if code == '2' {
        Some(ColorView::DarkGreen)
    } else if code == '3' {
        Some(ColorView::DarkCyan)
    } else if code == '4' {
        Some(ColorView::DarkRed)
    } else if code == '5' {
        Some(ColorView::Purple)
    } else if code == '6' {
        Some(ColorView::Gold)
    } else if code == '7' {
        Some(ColorView::Gray)
    } else if code == '8' {
        Some(ColorView::DarkGray)
    } else if code == '9' {
        Some(ColorView::Blue)
    } else if code == 'a' {
        Some(ColorView::Green)
    } else if code == 'b' {
        Some(ColorView::Cyan)
    } else if code == 'c' {
        Some(ColorView::Red)
    } else if code == 'd' {
        Some(ColorView::Pink)
    } else if code == 'e' {
        Some(ColorView::Yellow)
    } else if code == 'f' {
        Some(ColorView::White)
    } else {
        None
    }
}

/// The color of a color code, or nothing for any other character.
pub fn color_from_code(code: char) -> (color: Option<TextColor>)
    ensures
        crate::style::color_view(color) == code_color(code),
{
    if code == '0' {
        Some(TextColor::Black)
    } else if code == '1' {
        Some(TextColor::DarkBlue)
    } else if code == '2' {
        Some(TextColor::DarkGreen)
    } else if code == '3' {
        Some(TextColor::DarkCyan)
    } else if code == '4' {
        Some(TextColor::DarkRed)
    } else if code == '5' {
        Some(TextColor::Purple)
    } else if code == '6' {
        Some(TextColor::Gold)
    } else if code == '7' {
        Some(TextColor::Gray)
    } else if code == '8' {
        Some(TextColor::DarkGray)
    } else if code == '9' {
        Some(TextColor::Blue)
    } else if code == 'a' {
        Some(TextColor::Green)
    } else if code == 'b' {
        Some(TextColor::Cyan)
    } else if code == 'c' {
        Some(TextColor::Red)
    } else if code == 'd' {
        Some(TextColor::Pink)
    } else if code == 'e' {
        Some(TextColor::Yellow)
    } else if code == 'f' {
        Some(TextColor::White)
    } else {
        None
    }
}

/// One piece of a legacy text as it is handed in: a literal, in which the
/// delimiter is looked for, or the text of a variable, which is taken as it
/// is.
#[derive(Clone, Debug, PartialEq, Eq, Hash)]
pub enum ChatPart {
    Literal(String),
    Variable(String),
}

/// A legacy text: the delimiter, and the pieces in order.
#[derive(Clone, Debug, PartialEq, Eq, Hash)]
pub struct LegacyChat {
    pub pattern: String,
    pub chat_parts: Vec<ChatPart>,
}

/// The text of a part of the tree, and where it came from.
#[derive(Clone, Debug, PartialEq, Eq, Hash)]
pub enum PartText {
    Literal(String),
    Variable(String),
}

/// A part of the tree of a legacy text.
#[derive(Debug, PartialEq, Eq, Hash)]
pub struct ExpandedChatPart {
    /// The text of the part. A part without text that is kept stands for
    /// empty text.
    pub tokens: Option<PartText>,
    pub color: Option<TextColor>,
    pub extra_style: ExtraStyle,
    pub children: Vec<ExpandedChatPart>,
}

/// Why a legacy text has no tree.
#[derive(Clone, Copy, Debug, PartialEq, Eq, Hash)]
pub enum LegacyError {
    /// A delimiter is followed by nothing, or by a character that is no
    /// code. An empty delimiter is followed by nothing wherever it is
    /// looked for, so under it every literal is refused.
    InvalidEscape,
}

/// The mathematical value of a [`ChatPart`].
pub enum ChatPartView {
    Literal(Seq<char>),
    Variable(Seq<char>),
}

/// The mathematical value of a [`PartText`].
pub enum PartTextView {
    Literal(Seq<char>),
    Variable(Seq<char>),
}

/// The mathematical value of an [`ExpandedChatPart`].
pub struct PartView {
    pub tokens: Option<PartTextView>,
    pub color: Option<ColorView>,
    pub extra_style: ExtraStyle,
    pub children: Seq<PartView>,
}

impl View for ChatPart {
    type V = ChatPartView;

    open spec fn view(&self) -> ChatPartView {
        match self {
            ChatPart::Literal(text) => ChatPartView::Literal(text@),
            ChatPart::Variable(text) => ChatPartView::Variable(text@),
        }
    }
}

impl View for PartText {
    type V = PartTextView;

    open spec fn view(&self) -> PartTextView {
        match self {
            PartText::Literal(text) => PartTextView::Literal(text@),
            PartText::Variable(text) => PartTextView::Variable(text@),
        }
    }
}

/// The view of an optional text.
pub open spec fn tokens_view(tokens: Option<PartText>) -> Option<PartTextView> {
    match tokens {
        Some(text) => Some(text@),
        None => None,
    }
}

/// The view of a part.
pub open spec fn part_view(part: ExpandedChatPart) -> PartView
    decreases part,
{
    PartView {
        tokens: tokens_view(part.tokens),
        color: crate::style::color_view(part.color),
        extra_style: part.extra_style,
        children: parts_view(part.children@),
    }
}

/// The views of a run of parts, element by element.
pub open spec fn parts_view(parts: Seq<ExpandedChatPart>) -> Seq<PartView>
    decreases parts,
{
    Seq::new(
        parts.len(),
        |i: int|
            if 0 <= i < parts.len() {
                part_view(parts[i])
            } else {
                PartView::placeholder()
            },
    )
}

impl View for ExpandedChatPart {
    type V = PartView;

    open spec fn view(&self) -> PartView {
        part_view(*self)
    }
}

impl PartView {
    /// The part without text, color, formats or children.
    pub open spec fn placeholder() -> PartView {
        PartView {
            tokens: None,
            color: None,
            extra_style: ExtraStyle::spec_none(),
            children: Seq::empty(),
        }
    }

    /// The part of `text` without color, formats or children.
    pub open spec fn of(text: PartTextView) -> PartView {
        PartView {
            tokens: Some(text),
            color: None,
            extra_style: ExtraStyle::spec_none(),
            children: Seq::empty(),
        }
    }

    /// Whether the part has neither text nor color nor formats, so that it
    /// only holds its children together.
    pub open spec fn is_placeholder(self) -> bool {
        self.color is None && self.extra_style.spec_is_empty() && self.tokens is None
    }

    /// The part with its children in the opposite order.
    pub open spec fn turned(self) -> PartView {
        PartView { children: self.children.reverse(), ..self }
    }

    /// The part after it has taken `other` in: the children of `other`
    /// where it only holds them together, and else `other` itself, as it is
    /// or turned, as one more child.
    pub open spec fn adopt(self, other: PartView, turn: bool) -> PartView {
        PartView {
            children: if other.is_placeholder() {
                self.children + other.children
            } else {
                self.children.push(
                    if turn {
                        other.turned()
                    } else {
                        other
                    },
                )
            },
            ..self
        }
    }

    /// The part with one more child.
    pub open spec fn with_child(self, child: PartView) -> PartView {
        PartView { children: self.children.push(child), ..self }
    }
}

/// How far the tree has grown: the root, which collects what is finished,
/// and the part that is being built.
pub struct TreeView {
    pub root: PartView,
    pub parent: PartView,
}

impl TreeView {
    /// Where building starts: a root of empty text, and nothing being
    /// built.
    pub open spec fn start() -> TreeView {
        TreeView {
            root: PartView::of(PartTextView::Literal(Seq::empty())),
            parent: PartView::placeholder(),
        }
    }

    /// The tree after a piece of literal text that stands before any
    /// delimiter: it becomes a child of the part being built. An empty
    /// piece changes nothing.
    pub open spec fn plain(self, piece: Seq<char>) -> TreeView {
        if piece.len() == 0 {
            self
        } else {
            TreeView {
                parent: self.parent.with_child(PartView::of(PartTextView::Literal(piece))),
                ..self
            }
        }
    }

    /// The tree after a color code and the text behind it.
    pub open spec fn colored(self, color: ColorView, rest: Seq<char>) -> TreeView {
        let node = PartView { color: Some(color), ..PartView::of(PartTextView::Literal(rest)) };
        if self.parent.is_placeholder() {
            if rest.len() > 0 {
                TreeView { parent: self.parent.with_child(node), ..self }
            } else {
                self
            }
        } else if rest.len() > 0 {
            TreeView {
                parent: PartView::placeholder().with_child(node.with_child(self.parent.turned())),
                ..self
            }
        } else if self.parent.color is None {
            TreeView { parent: PartView { color: Some(color), ..self.parent }, ..self }
        } else {
            self
        }
    }

    /// The tree after a reset and the text behind it: what was being built
    /// goes to the root, and the text after it.
    pub open spec fn reset(self, rest: Seq<char>) -> TreeView {
        let root = self.root.adopt(self.parent, true);
        TreeView {
            root: if rest.len() > 0 {
                root.with_child(PartView::of(PartTextView::Literal(rest)))
            } else {
                root
            },
            parent: PartView::placeholder(),
        }
    }

    /// The tree after a format code and the text behind it.
    pub open spec fn formatted(self, code: char, rest: Seq<char>) -> TreeView {
        if rest.len() > 0 {
            let node = PartView {
                extra_style: ExtraStyle::spec_none().spec_insert(code),
                ..PartView::of(PartTextView::Literal(rest))
            };
            TreeView { parent: node.adopt(self.parent, true), ..self }
        } else if !self.parent.is_placeholder() || self.parent.children.len() > 0 {
            TreeView {
                parent: PartView {
                    extra_style: self.parent.extra_style.spec_insert(code),
                    tokens: if self.parent.tokens is None {
                        Some(PartTextView::Literal(Seq::empty()))
                    } else {
                        self.parent.tokens
                    },
                    ..self.parent
                },
                ..self
            }
        } else {
            self
        }
    }

    /// The tree after a piece that stands behind a delimiter: its first
    /// character is the code, and the others are the text that the code
    /// applies to. A piece that is empty or starts with no code is an
    /// invalid escape.
    pub open spec fn coded(self, piece: Seq<char>) -> Option<TreeView> {
        if piece.len() == 0 {
            None
        } else {
            let code = piece[0];
            let rest = piece.subrange(1, piece.len() as int);
            match code_color(code) {
                Some(color) => Some(self.colored(color, rest)),
                None => if code == 'r' {
                    Some(self.reset(rest))
                } else if is_format_code(code) {
                    Some(self.formatted(code, rest))
                } else {
                    None
                },
            }
        }
    }

    /// The tree after the pieces of a literal from place `from` on, the
    /// rightmost piece first. Every piece but the last one stands behind a
    /// delimiter.
    pub open spec fn pieces(self, pieces: Seq<Seq<char>>, from: int) -> Option<TreeView>
        decreases pieces.len() - from,
    {
        if from < 0 || from >= pieces.len() {
            Some(self)
        } else if from == pieces.len() - 1 {
            Some(self.plain(pieces[from]))
        } else {
            match self.coded(pieces[from]) {
                Some(next) => next.pieces(pieces, from + 1),
                None => None,
            }
        }
    }

    /// The tree after the text of a variable: it takes in what was being
    /// built, and is being built itself from now on.
    pub open spec fn variable(self, text: Seq<char>) -> TreeView {
        TreeView {
            parent: PartView::of(PartTextView::Variable(text)).adopt(self.parent, false),
            ..self
        }
    }

    /// The tree after one part of the legacy text. The delimiter is looked
    /// for in a literal only, and a literal is refused where the delimiter
    /// is empty.
    pub open spec fn part(self, part: ChatPartView, pattern: Seq<char>) -> Option<TreeView> {
        match part {
            ChatPartView::Literal(value) => if pattern.len() == 0 {
                None
            } else {
                self.pieces(rsplit(value, pattern), 0)
            },
            ChatPartView::Variable(text) => Some(self.variable(text)),
        }
    }

    /// The finished tree: the root takes in what was being built. A root
    /// with one child is that child; any other root has its children put
    /// in reading order.
    pub open spec fn finish(self) -> PartView {
        let root = self.root.adopt(self.parent, false);
        if root.children.len() == 1 {
            root.children[0]
        } else {
            root.turned()
        }
    }
}

/// The tree after the parts from place `from` on, the last part first.
pub open spec fn tree_from(parts: Seq<ChatPartView>, pattern: Seq<char>, from: int) -> Option<
    TreeView,
>
    decreases parts.len() - from,
{
    if from < 0 || from >= parts.len() {
        Some(TreeView::start())
    } else {
        match tree_from(parts, pattern, from + 1) {
            Some(tree) => tree.part(parts[from], pattern),
            None => None,
        }
    }
}

/// The tree of a legacy text. The parts are gone through from the last to
/// the first, and the pieces of a literal from the right to the left. The
/// text has a tree unless one of its literals is refused; a text of
/// variables alone has one whatever the delimiter.
pub open spec fn legacy_tree(pattern: Seq<char>, parts: Seq<ChatPartView>) -> Result<
    PartView,
    LegacyError,
> {
    match tree_from(parts, pattern, 0) {
        Some(tree) => Ok(tree.finish()),
        None => Err(LegacyError::InvalidEscape),
    }
}

/// The component of a part: its text, or empty text where it has none, with
/// its color and formats, and the components of its children as children.
pub open spec fn part_chat(part: PartView) -> ChatView
    decreases part,
{
    ChatView {
        kind: crate::component::KindView::Text(
            match part.tokens {
                Some(PartTextView::Literal(text)) => text,
                Some(PartTextView::Variable(text)) => text,
                None => Seq::empty(),
            },
        ),
        style: crate::style::StyleView {
            color: part.color,
            obfuscated: if part.extra_style.obfuscated {
                Some(true)
            } else {
                None
            },
            bold: if part.extra_style.bold {
                Some(true)
            } else {
                None
            },
            strikethrough: if part.extra_style.strikethrough {
                Some(true)
            } else {
                None
            },
            underlined: if part.extra_style.underlined {
                Some(true)
            } else {
                None
            },
            italic: if part.extra_style.italic {
                Some(true)
            } else {
                None
            },
            ..crate::style::StyleView::empty()
        },
        children: Seq::new(
            part.children.len(),
            |i: int|
                if 0 <= i < part.children.len() {
                    part_chat(part.children[i])
                } else {
                    ChatView::text(Seq::empty())
                },
        ),
    }
}

/// The parts in the opposite order.
fn reverse_parts(parts: Vec<ExpandedChatPart>) -> (turned: Vec<ExpandedChatPart>)
    ensures
        parts_view(turned@) == parts_view(parts@).reverse(),
{
    let mut parts = parts;
    let ghost all = parts@;
    let mut turned: Vec<ExpandedChatPart> = Vec::new();
    while parts.len() > 0
        invariant
            parts.len() + turned.len() == all.len(),
            parts@ == all.subrange(0, parts.len() as int),
            forall|i: int| 0 <= i < turned.len() ==> #[trigger] turned[i] == all[all.len() - 1 - i],
        decreases parts.len(),
    {
        let part = parts.pop().unwrap();
        turned.push(part);
    }
    assert(parts_view(turned@) =~= parts_view(all).reverse());
    turned
}

impl Default for ExpandedChatPart {
    fn default() -> (part: ExpandedChatPart)
        ensures
            part@ == PartView::placeholder(),
    {
        ExpandedChatPart::placeholder()
    }
}

impl ExpandedChatPart {
    /// The part of `tokens` without color, formats or children.
    pub fn new(tokens: PartText) -> (part: Self)
        ensures
            part@ == PartView::of(tokens@),
    {
        let part = ExpandedChatPart {
            tokens: Some(tokens),
            color: None,
            extra_style: ExtraStyle::none(),
            children: Vec::new(),
        };
        assert(part@.children =~= Seq::empty());
        part
    }

    /// The part without text, color, formats or children.
    pub fn placeholder() -> (part: Self)
        ensures
            part@ == PartView::placeholder(),
    {
        let part = ExpandedChatPart {
            tokens: None,
            color: None,
            extra_style: ExtraStyle::none(),
            children: Vec::new(),
        };
        assert(part@.children =~= Seq::empty());
        part
    }

    /// Whether the part has neither text nor color nor formats, so that it
    /// only holds its children together.
    pub fn is_placeholder(&self) -> (yes: bool)
        ensures
            yes == self@.is_placeholder(),
    {
        self.color.is_none() && self.extra_style.is_empty() && self.tokens.is_none()
    }

    /// The part with its children in the opposite order.
    fn turned(self) -> (part: Self)
        ensures
            part@ == self@.turned(),
    {
        let ExpandedChatPart { tokens, color, extra_style, children } = self;
        ExpandedChatPart { tokens, color, extra_style, children: reverse_parts(children) }
    }

    /// The part with one more child.
    fn with_child(self, child: ExpandedChatPart) -> (part: Self)
        ensures
            part@ == self@.with_child(child@),
    {
        let mut part = self;
        let ghost before = part@;
        part.children.push(child);
        assert(part@.children =~= before.children.push(child@));
        part
    }

    /// The part after it has taken `other` in.
    fn adopt(self, other: ExpandedChatPart, turn: bool) -> (part: Self)
        ensures
            part@ == self@.adopt(other@, turn),
    {
        if other.is_placeholder() {
            let mut part = self;
            let mut other = other;
            let ghost before = part@;
            let ghost added = other@.children;
            part.children.append(&mut other.children);
            assert(part@.children =~= before.children + added);
            part
        } else if turn {
            self.with_child(other.turned())
        } else {
            self.with_child(other)
        }
    }

    /// The component of the part: its text, or empty text where it has
    /// none, with its color and formats, and the components of its children
    /// as children.
    pub fn to_chat(&self) -> (chat: Chat)
        ensures
            chat@ == part_chat(self@),
        decreases self,
    {
        let mut chat = match &self.tokens {
            Some(PartText::Literal(text)) => Chat::text(text.as_str()),
            Some(PartText::Variable(text)) => Chat::text(text.as_str()),
            None => Chat::text(""),
        };
        proof {
            reveal_strlit("");
            assert(""@ =~= Seq::<char>::empty());
        }
        if let Some(color) = &self.color {
            chat = chat.color(color.clone());
        }
        if self.extra_style.obfuscated {
            chat = chat.obfuscated(true);
        }
        if self.extra_style.bold {
            chat = chat.bold(true);
        }
        if self.extra_style.strikethrough {
            chat = chat.strikethrough(true);
        }
        if self.extra_style.underlined {
            chat = chat.underlined(true);
        }
        if self.extra_style.italic {
            chat = chat.italic(true);
        }
        let ghost goal = part_chat(self@);
        let mut i: usize = 0;
        while i < self.children.len()
            invariant
                i <= self.children.len(),
                chat@.kind == goal.kind,
                chat@.style == goal.style,
                goal == part_chat(self@),
                chat@.children.len() == i,
                forall|j: int| 0 <= j < i ==> #[trigger] chat@.children[j] == goal.children[j],
            decreases self.children.len() - i,
        {
            assert(self@.children[i as int] == self.children[i as int]@);
            let child = self.children[i].to_chat();
            chat = chat.child(child);
            i += 1;
        }
        assert(chat@.children =~= goal.children);
        chat
    }
}

/// The tree while it is built.
struct Tree {
    root: ExpandedChatPart,
    parent: ExpandedChatPart,
}

impl View for Tree {
    type V = TreeView;

    closed spec fn view(&self) -> TreeView {
        TreeView { root: self.root@, parent: self.parent@ }
    }
}

impl Tree {
    fn start() -> (tree: Tree)
        ensures
            tree@ == TreeView::start(),
    {
        proof {
            reveal_strlit("");
            assert(""@ =~= Seq::<char>::empty());
        }
        Tree {
            root: ExpandedChatPart::new(PartText::Literal("".to_owned())),
            parent: ExpandedChatPart::placeholder(),
        }
    }

    fn plain(self, piece: &str) -> (tree: Tree)
        ensures
            tree@ == self@.plain(piece@),
    {
        if piece.unicode_len() == 0 {
            self
        } else {
            let Tree { root, parent } = self;
            Tree {
                root,
                parent: parent.with_child(ExpandedChatPart::new(PartText::Literal(piece.to_owned()))),
            }
        }
    }

    fn colored(self, color: TextColor, rest: &str) -> (tree: Tree)
        ensures
            tree@ == self@.colored(color@, rest@),
    {
        let Tree { root, parent } = self;
        let filled = rest.unicode_len() > 0;
        if parent.is_placeholder() {
            if filled {
                let mut node = ExpandedChatPart::new(PartText::Literal(rest.to_owned()));
                node.color = Some(color);
                Tree { root, parent: parent.with_child(node) }
            } else {
                Tree { root, parent }
            }
        } else if filled {
            let mut node = ExpandedChatPart::new(PartText::Literal(rest.to_owned()));
            node.color = Some(color);
            let node = node.with_child(parent.turned());
            Tree { root, parent: ExpandedChatPart::placeholder().with_child(node) }
        } else if parent.color.is_none() {
            let mut parent = parent;
            parent.color = Some(color);
            Tree { root, parent }
        } else {
            Tree { root, parent }
        }
    }

    fn reset(self, rest: &str) -> (tree: Tree)
        ensures
            tree@ == self@.reset(rest@),
    {
        let Tree { root, parent } = self;
        let root = root.adopt(parent, true);
        let root = if rest.unicode_len() > 0 {
            root.with_child(ExpandedChatPart::new(PartText::Literal(rest.to_owned())))
        } else {
            root
        };
        Tree { root, parent: ExpandedChatPart::placeholder() }
    }

    fn formatted(self, code: char, rest: &str) -> (tree: Tree)
        ensures
            tree@ == self@.formatted(code, rest@),
    {
        let Tree { root, parent } = self;
        if rest.unicode_len() > 0 {
            let mut node = ExpandedChatPart::new(PartText::Literal(rest.to_owned()));
            node.extra_style = node.extra_style.insert(code);
            Tree { root, parent: node.adopt(parent, true) }
        } else if !parent.is_placeholder() || parent.children.len() > 0 {
            let mut parent = parent;
            parent.extra_style = parent.extra_style.insert(code);
            if parent.tokens.is_none() {
                proof {
                    reveal_strlit("");
                    assert(""@ =~= Seq::<char>::empty());
                }
                parent.tokens = Some(PartText::Literal("".to_owned()));
            }
            Tree { root, parent }
        } else {
            Tree { root, parent }
        }
    }

    fn coded(self, piece: &str) -> (tree: Option<Tree>)
        ensures
            match tree {
                Some(tree) => self@.coded(piece@) == Some(tree@),
                None => self@.coded(piece@) is None,
            },
    {
        let length = piece.unicode_len();
        if length == 0 {
            return None;
        }
        let code = piece.get_char(0);
        let rest = piece.substring_char(1, length);
        match color_from_code(code) {
            Some(color) => Some(self.colored(color, rest)),
            None => if code == 'r' {
                Some(self.reset(rest))
            } else if code == 'k' || code == 'l' || code == 'm' || code == 'n' || code == 'o' {
                Some(self.formatted(code, rest))
            } else {
                None
            },
        }
    }

    fn variable(self, text: &str) -> (tree: Tree)
        ensures
            tree@ == self@.variable(text@),
    {
        let Tree { root, parent } = self;
        let node = ExpandedChatPart::new(PartText::Variable(text.to_owned()));
        Tree { root, parent: node.adopt(parent, false) }
    }

    fn literal(self, value: &str, pattern: &Vec<char>) -> (tree: Option<Tree>)
        requires
            pattern.len() > 0,
        ensures
            match tree {
                Some(tree) => self@.pieces(rsplit(value@, pattern@), 0) == Some(tree@),
                None => self@.pieces(rsplit(value@, pattern@), 0) is None,
            },
    {
        let chars = chars_of(value);
        let ranges = rsplit_ranges(&chars, pattern);
        let ghost pieces = rsplit(value@, pattern@);
        let ghost goal = self@.pieces(pieces, 0);
        let mut tree = self;
        let mut i: usize = 0;
        while i < ranges.len()
            invariant
                i <= ranges.len(),
                ranges.len() == pieces.len(),
                chars@ == value@,
                forall|j: int|
                    0 <= j < ranges.len() ==> (#[trigger] ranges[j]).0 <= ranges[j].1 <= chars.len()
                        && chars@.subrange(ranges[j].0 as int, ranges[j].1 as int) == pieces[j],
                tree@.pieces(pieces, i as int) == goal,
                pieces == rsplit(value@, pattern@),
                goal == self@.pieces(pieces, 0),
            decreases ranges.len() - i,
        {
            let (from, to) = ranges[i];
            let piece = value.substring_char(from, to);
            assert(piece@ == pieces[i as int]);
            let ghost before = tree@;
            if i + 1 == ranges.len() {
                tree = tree.plain(piece);
                assert(before.pieces(pieces, i as int) == Some(tree@));
                assert(tree@.pieces(pieces, i + 1) == Some(tree@));
            } else {
                tree = match tree.coded(piece) {
                    Some(tree) => tree,
                    None => {
                        assert(before.pieces(pieces, i as int) is None);
                        return None;
                    },
                };
                assert(before.pieces(pieces, i as int) == tree@.pieces(pieces, i + 1));
            }
            i += 1;
        }
        Some(tree)
    }

    fn part(self, part: &ChatPart, pattern: &Vec<char>) -> (tree: Option<Tree>)
        ensures
            match tree {
                Some(tree) => self@.part(part@, pattern@) == Some(tree@),
                None => self@.part(part@, pattern@) is None,
            },
    {
        match part {
            ChatPart::Literal(value) => if pattern.len() == 0 {
                None
            } else {
                self.literal(value.as_str(), pattern)
            },
            ChatPart::Variable(text) => Some(self.variable(text.as_str())),
        }
    }

    fn finish(self) -> (part: ExpandedChatPart)
        ensures
            part@ == self@.finish(),
    {
        let Tree { root, parent } = self;
        let mut root = root.adopt(parent, false);
        if root.children.len() == 1 {
            let ghost before = root@;
            let child = root.children.remove(0);
            assert(child@ == before.children[0]);
            child
        } else {
            root.turned()
        }
    }
}

/// The tree of a legacy text.
///
/// The parts are gone through from the last to the first, and the pieces of
/// a literal from the right to the left. A delimiter that is followed by
/// nothing or by a character that is no code is refused. Under an empty
/// delimiter that is every literal, so that only a text of variables alone
/// has a tree.
pub fn map_to_tree(legacy_chat: LegacyChat) -> (tree: Result<ExpandedChatPart, LegacyError>)
    ensures
        match tree {
            Ok(part) => legacy_tree(legacy_chat.pattern@, chat_parts_view(legacy_chat.chat_parts@))
                == Ok::<PartView, LegacyError>(part@) && part@.named(),
            Err(e) => legacy_tree(legacy_chat.pattern@, chat_parts_view(legacy_chat.chat_parts@))
                == Err::<PartView, LegacyError>(e),
        },
{
    proof {
        lemma_legacy_tree_named(legacy_chat.pattern@, chat_parts_view(legacy_chat.chat_parts@));
    }
    let pattern = chars_of(legacy_chat.pattern.as_str());
    let parts = &legacy_chat.chat_parts;
    let ghost views = chat_parts_view(parts@);
    let mut tree = Tree::start();
    let mut i: usize = parts.len();
    while i > 0
        invariant
            i <= parts.len(),
            pattern@ == legacy_chat.pattern@,
            views == chat_parts_view(parts@),
            parts@ == legacy_chat.chat_parts@,
            tree_from(views, pattern@, i as int) == Some(tree@),
        decreases i,
    {
        i -= 1;
        assert(views[i as int] == parts[i as int]@);
        tree = match tree.part(&parts[i], &pattern) {
            Some(tree) => tree,
            None => {
                proof {
                    assert(tree_from(views, pattern@, i as int) is None);
                    lemma_tree_from_fails(views, pattern@, i as int);
                }
                return Err(LegacyError::InvalidEscape);
            },
        };
        assert(tree_from(views, pattern@, i as int) == Some(tree@));
    }
    Ok(tree.finish())
}

/// Once a part is refused, the whole text is.
proof fn lemma_tree_from_fails(parts: Seq<ChatPartView>, pattern: Seq<char>, at: int)
    requires
        0 <= at < parts.len(),
        tree_from(parts, pattern, at) is None,
    ensures
        tree_from(parts, pattern, 0) is None,
    decreases at,
{
    if at > 0 {
        assert(tree_from(parts, pattern, at - 1) is None);
        lemma_tree_from_fails(parts, pattern, at - 1);
    }
}

/// The views of a run of parts of a legacy text, element by element.
pub open spec fn chat_parts_view(parts: Seq<ChatPart>) -> Seq<ChatPartView> {
    Seq::new(parts.len(), |i: int| parts[i]@)
}

/// The component of a legacy text: the component of its tree.
pub open spec fn legacy_chat(pattern: Seq<char>, parts: Seq<ChatPartView>) -> Result<
    ChatView,
    LegacyError,
> {
    match legacy_tree(pattern, parts) {
        Ok(tree) => Ok(part_chat(tree)),
        Err(e) => Err(e),
    }
}

/// The component of a legacy text with the delimiter `pattern`.
pub fn chat(pattern: &str, parts: Vec<ChatPart>) -> (made: Result<Chat, LegacyError>)
    ensures
        match made {
            Ok(chat) => legacy_chat(pattern@, chat_parts_view(parts@)) == Ok::<
                ChatView,
                LegacyError,
            >(chat@) && chat@.wf(),
            Err(e) => legacy_chat(pattern@, chat_parts_view(parts@)) == Err::<ChatView, LegacyError>(
                e,
            ),
        },
{
    match map_to_tree(LegacyChat { pattern: pattern.to_owned(), chat_parts: parts }) {
        Ok(tree) => {
            proof {
                lemma_legacy_tree_named(pattern@, chat_parts_view(parts@));
                lemma_part_chat_well_formed(tree@);
            }
            Ok(tree.to_chat())
        },
        Err(e) => Err(e),
    }
}

impl PartView {
    /// Whether every color in the part, at any depth, is one of the named
    /// colors.
    pub open spec fn named(self) -> bool
        decreases self,
    {
        &&& self.color matches Some(color) ==> !(color is Custom)
        &&& forall|i: int| 0 <= i < self.children.len() ==> (#[trigger] self.children[i]).named()
    }
}

impl TreeView {
    /// Whether every color in the tree is one of the named colors.
    pub open spec fn named(self) -> bool {
        self.root.named() && self.parent.named()
    }
}

/// Turning the children of a part round keeps its colors.
pub proof fn lemma_turned_named(part: PartView)
    requires
        part.named(),
    ensures
        part.turned().named(),
{
    let turned = part.turned();
    assert forall|i: int| 0 <= i < turned.children.len() implies (
    #[trigger] turned.children[i]).named() by {
        assert(turned.children[i] == part.children[part.children.len() - 1 - i]);
    }
}

/// A part with one more child of named colors has named colors.
pub proof fn lemma_with_child_named(part: PartView, child: PartView)
    requires
        part.named(),
        child.named(),
    ensures
        part.with_child(child).named(),
{
    let grown = part.with_child(child);
    assert forall|i: int| 0 <= i < grown.children.len() implies (
    #[trigger] grown.children[i]).named() by {
        if i < part.children.len() {
            assert(grown.children[i] == part.children[i]);
        } else {
            assert(grown.children[i] == child);
        }
    }
}

/// A part that takes in a part of named colors has named colors.
pub proof fn lemma_adopt_named(part: PartView, other: PartView, turn: bool)
    requires
        part.named(),
        other.named(),
    ensures
        part.adopt(other, turn).named(),
{
    let grown = part.adopt(other, turn);
    if other.is_placeholder() {
        assert forall|i: int| 0 <= i < grown.children.len() implies (
        #[trigger] grown.children[i]).named() by {
            if i < part.children.len() {
                assert(grown.children[i] == part.children[i]);
            } else {
                assert(grown.children[i] == other.children[i - part.children.len()]);
            }
        }
    } else if turn {
        lemma_turned_named(other);
        lemma_with_child_named(part, other.turned());
    } else {
        lemma_with_child_named(part, other);
    }
}

/// A part of text alone has named colors, with a named color or without.
pub proof fn lemma_leaf_named(text: PartTextView, color: Option<ColorView>, extra_style: ExtraStyle)
    requires
        color matches Some(c) ==> !(c is Custom),
    ensures
        (PartView { color, extra_style, ..PartView::of(text) }).named(),
        PartView::placeholder().named(),
{
}

/// A piece behind a delimiter keeps the colors of the tree named.
pub proof fn lemma_coded_named(tree: TreeView, piece: Seq<char>)
    requires
        tree.named(),
    ensures
        tree.coded(piece) matches Some(next) ==> next.named(),
{
    if piece.len() > 0 {
        let code = piece[0];
        let rest = piece.subrange(1, piece.len() as int);
        let text = PartTextView::Literal(rest);
        match code_color(code) {
            Some(color) => {
                let node = PartView { color: Some(color), ..PartView::of(text) };
                lemma_leaf_named(text, Some(color), ExtraStyle::spec_none());
                if tree.parent.is_placeholder() {
                    lemma_with_child_named(tree.parent, node);
                } else if rest.len() > 0 {
                    lemma_turned_named(tree.parent);
                    lemma_with_child_named(node, tree.parent.turned());
                    lemma_with_child_named(
                        PartView::placeholder(),
                        node.with_child(tree.parent.turned()),
                    );
                } else {
                    let painted = PartView { color: Some(color), ..tree.parent };
                    assert(painted.children == tree.parent.children);
                    assert(painted.named());
                }
            },
            None => {
                if code == 'r' {
                    lemma_adopt_named(tree.root, tree.parent, true);
                    lemma_leaf_named(text, None, ExtraStyle::spec_none());
                    lemma_with_child_named(tree.root.adopt(tree.parent, true), PartView::of(text));
                } else if is_format_code(code) {
                    let style = ExtraStyle::spec_none().spec_insert(code);
                    let node = PartView { extra_style: style, ..PartView::of(text) };
                    lemma_leaf_named(text, None, style);
                    lemma_adopt_named(node, tree.parent, true);
                    let marked = tree.formatted(code, rest).parent;
                    if rest.len() == 0 {
                        assert(marked.children == tree.parent.children);
                        assert(marked.color == tree.parent.color);
                        assert(marked.named());
                    }
                }
            },
        }
    }
}

/// The pieces of a literal keep the colors of the tree named.
pub proof fn lemma_pieces_named(tree: TreeView, pieces: Seq<Seq<char>>, from: int)
    requires
        tree.named(),
    ensures
        tree.pieces(pieces, from) matches Some(next) ==> next.named(),
    decreases pieces.len() - from,
{
    if 0 <= from < pieces.len() {
        if from == pieces.len() - 1 {
            let text = PartTextView::Literal(pieces[from]);
            lemma_leaf_named(text, None, ExtraStyle::spec_none());
            lemma_with_child_named(tree.parent, PartView::of(text));
        } else {
            lemma_coded_named(tree, pieces[from]);
            if let Some(next) = tree.coded(pieces[from]) {
                lemma_pieces_named(next, pieces, from + 1);
            }
        }
    }
}

/// The parts of a legacy text keep the colors of the tree named.
pub proof fn lemma_tree_from_named(parts: Seq<ChatPartView>, pattern: Seq<char>, from: int)
    ensures
        tree_from(parts, pattern, from) matches Some(tree) ==> tree.named(),
    decreases parts.len() - from,
{
    if 0 <= from < parts.len() {
        lemma_tree_from_named(parts, pattern, from + 1);
        if let Some(tree) = tree_from(parts, pattern, from + 1) {
            match parts[from] {
                ChatPartView::Literal(value) => {
                    lemma_pieces_named(tree, rsplit(value, pattern), 0);
                },
                ChatPartView::Variable(text) => {
                    let node = PartView::of(PartTextView::Variable(text));
                    lemma_leaf_named(PartTextView::Variable(text), None, ExtraStyle::spec_none());
                    lemma_adopt_named(node, tree.parent, false);
                },
            }
        }
    } else {
        lemma_leaf_named(PartTextView::Literal(Seq::empty()), None, ExtraStyle::spec_none());
    }
}

/// Every color in the tree of a legacy text is one of the named colors.
pub proof fn lemma_legacy_tree_named(pattern: Seq<char>, parts: Seq<ChatPartView>)
    ensures
        legacy_tree(pattern, parts) matches Ok(tree) ==> tree.named(),
{
    lemma_tree_from_named(parts, pattern, 0);
    if let Some(tree) = tree_from(parts, pattern, 0) {
        lemma_adopt_named(tree.root, tree.parent, false);
        let root = tree.root.adopt(tree.parent, false);
        if root.children.len() == 1 {
            assert(root.children[0].named());
        } else {
            lemma_turned_named(root);
        }
    }
}

/// The component of a part with named colors is well-formed.
pub proof fn lemma_part_chat_well_formed(part: PartView)
    requires
        part.named(),
    ensures
        part_chat(part).wf(),
    decreases part,
{
    let chat = part_chat(part);
    assert(chat.kind.wf());
    assert(chat.style.wf());
    assert forall|i: int| 0 <= i < chat.children.len() implies (#[trigger] chat.children[i]).wf() by {
        lemma_part_chat_well_formed(part.children[i]);
    }
}

} // verus!
