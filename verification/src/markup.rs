//! Blocks in text, and that they are read as they stand there.
//!
//! The laws here say of texts of a given make what the extractor reads from
//! them: of blocks that stand apart in any text, one command for each
//! block that holds one; of blocks whose fields were written out, each
//! field as it was written.

use crate::command::CommandText;
use crate::extract::{
    block_command, closing_marker, commands_in, field_text, leading_block, leading_command,
    opening_marker,
};
use crate::text::{
    first_occurrence, is_first_occurrence, lemma_first_occurrence, lemma_first_occurrence_absent,
    lemma_first_occurrence_found, occurs, occurs_at,
};
use vstd::prelude::*;

verus! {

/// Whether `text` holds no opening angle bracket.
pub open spec fn plain(text: Seq<char>) -> bool {
    forall|i: int| 0 <= i < text.len() ==> text[i] != '<'
}

/// Whether `text` is a tag: an opening angle bracket, a closing one, and
/// between them neither.
pub open spec fn is_tag(text: Seq<char>) -> bool {
    &&& text.len() >= 2
    &&& text[0] == '<'
    &&& text[text.len() - 1] == '>'
    &&& forall|i: int| 0 < i < text.len() ==> text[i] != '<'
    &&& forall|i: int| 0 <= i < text.len() - 1 ==> text[i] != '>'
}

/// Whether `text` is empty or begins with an opening angle bracket.
spec fn begins_with_angle(text: Seq<char>) -> bool {
    text.len() == 0 || text[0] == '<'
}

/// Whether `text`, read from position `at`, departs from `pattern` before
/// `text` ends.
spec fn departs(text: Seq<char>, pattern: Seq<char>, at: int) -> bool {
    exists|k: int| 0 <= k < pattern.len() && at + k < text.len() && text[at + k] != pattern[k]
}

/// Whether `pattern` begins nowhere in `text`, whatever may follow `text`.
spec fn silent(text: Seq<char>, pattern: Seq<char>) -> bool {
    forall|at: int| 0 <= at < text.len() ==> departs(text, pattern, at)
}

/// Whether `pattern` begins nowhere in `text`, unless what follows `text`
/// completes it.
spec fn hushed(text: Seq<char>, pattern: Seq<char>) -> bool {
    forall|at: int|
        0 <= at < text.len() ==> departs(text, pattern, at) || at + pattern.len() > text.len()
}

proof fn lemma_silent_plain(text: Seq<char>, tag: Seq<char>)
    requires
        plain(text),
        is_tag(tag),
    ensures
        silent(text, tag),
{
    assert forall|at: int| 0 <= at < text.len() implies departs(text, tag, at) by {
        assert(text[at + 0] != tag[0]);
    }
}

proof fn lemma_silent_tag(other: Seq<char>, tag: Seq<char>)
    requires
        is_tag(other),
        is_tag(tag),
        other != tag,
    ensures
        silent(other, tag),
{
    assert forall|at: int| 0 <= at < other.len() implies departs(other, tag, at) by {
        if at > 0 {
            assert(other[at + 0] != tag[0]);
        } else if other.len() < tag.len() {
            let k = other.len() - 1;
            assert(other[0 + k] != tag[k]);
        } else if other.len() > tag.len() {
            let k = tag.len() - 1;
            assert(other[0 + k] != tag[k]);
        } else {
            if forall|k: int| 0 <= k < tag.len() ==> other[k] == tag[k] {
                assert(other =~= tag);
            }
            let k = choose|k: int| 0 <= k < tag.len() && other[k] != tag[k];
            assert(other[0 + k] != tag[k]);
        }
    }
}

proof fn lemma_silent_concat(first: Seq<char>, second: Seq<char>, pattern: Seq<char>)
    requires
        silent(first, pattern),
        silent(second, pattern),
    ensures
        silent(first + second, pattern),
{
    let both = first + second;
    assert forall|at: int| 0 <= at < both.len() implies departs(both, pattern, at) by {
        if at < first.len() {
            assert(departs(first, pattern, at));
            let k = choose|k: int|
                0 <= k < pattern.len() && at + k < first.len() && first[at + k] != pattern[k];
            assert(both[at + k] == first[at + k]);
        } else {
            let from = at - first.len();
            assert(departs(second, pattern, from));
            let k = choose|k: int|
                0 <= k < pattern.len() && from + k < second.len() && second[from + k] != pattern[k];
            assert(both[at + k] == second[from + k]);
        }
    }
}

proof fn lemma_silent_hushed(text: Seq<char>, pattern: Seq<char>)
    requires
        silent(text, pattern),
    ensures
        hushed(text, pattern),
{
    assert forall|at: int| 0 <= at < text.len() implies departs(text, pattern, at) || at
        + pattern.len() > text.len() by {
        assert(departs(text, pattern, at));
    }
}

/// A pattern that stands nowhere in a text begins there at most where the
/// text ends before the pattern does.
proof fn lemma_absent_hushed(text: Seq<char>, pattern: Seq<char>)
    requires
        !occurs(text, pattern),
    ensures
        hushed(text, pattern),
{
    assert forall|at: int| 0 <= at < text.len() implies departs(text, pattern, at) || at
        + pattern.len() > text.len() by {
        if at + pattern.len() <= text.len() {
            assert(!occurs_at(text, pattern, at));
            let piece = text.subrange(at, at + pattern.len());
            if forall|k: int| 0 <= k < pattern.len() ==> text[at + k] == pattern[k] {
                assert forall|k: int| 0 <= k < pattern.len() implies piece[k] == pattern[k] by {
                    assert(piece[k] == text[at + k]);
                }
                assert(piece =~= pattern);
            }
            let k = choose|k: int| 0 <= k < pattern.len() && text[at + k] != pattern[k];
            assert(at + k < text.len());
        }
    }
}

/// Behind a silent text, what is hushed stays hushed.
proof fn lemma_silent_then_hushed(first: Seq<char>, second: Seq<char>, pattern: Seq<char>)
    requires
        silent(first, pattern),
        hushed(second, pattern),
    ensures
        hushed(first + second, pattern),
{
    let both = first + second;
    assert forall|at: int| 0 <= at < both.len() implies departs(both, pattern, at) || at
        + pattern.len() > both.len() by {
        if at < first.len() {
            assert(departs(first, pattern, at));
            let k = choose|k: int|
                0 <= k < pattern.len() && at + k < first.len() && first[at + k] != pattern[k];
            assert(both[at + k] == first[at + k]);
        } else {
            let from = at - first.len();
            if departs(second, pattern, from) {
                let k = choose|k: int|
                    0 <= k < pattern.len() && from + k < second.len() && second[from + k]
                        != pattern[k];
                assert(both[at + k] == second[from + k]);
            }
        }
    }
}

/// Two hushed texts make a hushed text where the second begins with an
/// opening angle bracket: no tag runs over one.
proof fn lemma_hushed_concat(first: Seq<char>, second: Seq<char>, tag: Seq<char>)
    requires
        hushed(first, tag),
        hushed(second, tag),
        is_tag(tag),
        begins_with_angle(second),
    ensures
        hushed(first + second, tag),
{
    let both = first + second;
    assert forall|at: int| 0 <= at < both.len() implies departs(both, tag, at) || at + tag.len()
        > both.len() by {
        if at < first.len() {
            if departs(first, tag, at) {
                let k = choose|k: int|
                    0 <= k < tag.len() && at + k < first.len() && first[at + k] != tag[k];
                assert(both[at + k] == first[at + k]);
            } else if second.len() > 0 {
                let k = first.len() - at;
                assert(both[at + k] == second[0]);
                assert(tag[k] != '<');
            }
        } else {
            let from = at - first.len();
            if departs(second, tag, from) {
                let k = choose|k: int|
                    0 <= k < tag.len() && from + k < second.len() && second[from + k] != tag[k];
                assert(both[at + k] == second[from + k]);
            }
        }
    }
}

/// A tag begins nowhere in a text that is hushed for it, where the text
/// ends the whole or an opening angle bracket follows it.
proof fn lemma_hushed_stretch(text: Seq<char>, tag: Seq<char>, rest: Seq<char>, at: int)
    requires
        hushed(text, tag),
        is_tag(tag),
        begins_with_angle(rest),
        0 <= at < text.len(),
    ensures
        !occurs_at(text + rest, tag, at),
{
    let whole = text + rest;
    if occurs_at(whole, tag, at) {
        let piece = whole.subrange(at, at + tag.len());
        if departs(text, tag, at) {
            let k = choose|k: int|
                0 <= k < tag.len() && at + k < text.len() && text[at + k] != tag[k];
            assert(piece[k] == tag[k]);
            assert(whole[at + k] == text[at + k]);
        } else {
            let k = text.len() - at;
            assert(piece[k] == tag[k]);
            assert(whole[at + k] == rest[0]);
        }
    }
}

/// Behind a text that is hushed for it, a tag is found where it is found
/// in what follows.
proof fn lemma_behind(text: Seq<char>, tag: Seq<char>, rest: Seq<char>)
    requires
        hushed(text, tag),
        is_tag(tag),
        begins_with_angle(rest),
    ensures
        first_occurrence(text + rest, tag) == match first_occurrence(rest, tag) {
            Some(at) => Some(text.len() + at),
            None => None,
        },
{
    let whole = text + rest;
    let n = text.len() as int;
    assert forall|at: int| occurs_at(whole, tag, at) <==> at >= n && occurs_at(rest, tag, at - n) by {
        if 0 <= at < n {
            lemma_hushed_stretch(text, tag, rest, at);
        } else if at >= n && at + tag.len() <= whole.len() {
            assert(whole.subrange(at, at + tag.len()) =~= rest.subrange(at - n, at - n + tag.len()));
        }
    }
    lemma_first_occurrence(rest, tag);
    match first_occurrence(rest, tag) {
        Some(at) => {
            assert(is_first_occurrence(rest, tag, at));
            assert(occurs_at(whole, tag, n + at));
            assert forall|earlier: int| 0 <= earlier < n + at implies !occurs_at(
                whole,
                tag,
                earlier,
            ) by {
                if occurs_at(whole, tag, earlier) {
                    assert(occurs_at(rest, tag, earlier - n));
                }
            }
            lemma_first_occurrence_found(whole, tag, n + at);
        },
        None => {
            assert forall|at: int| 0 <= at && at + tag.len() <= whole.len() implies !occurs_at(
                whole,
                tag,
                at,
            ) by {
                if occurs_at(whole, tag, at) {
                    assert(occurs_at(rest, tag, at - n));
                }
            }
            lemma_first_occurrence_absent(whole, tag);
        },
    }
}

/// A pattern that stands at the head of a text is first found there.
proof fn lemma_found_at_head(pattern: Seq<char>, rest: Seq<char>)
    ensures
        first_occurrence(pattern + rest, pattern) == Some(0int),
{
    let whole = pattern + rest;
    assert(whole.subrange(0, pattern.len() as int) =~= pattern);
    lemma_first_occurrence_found(whole, pattern, 0);
}

/// A tag stands nowhere in a text that is hushed for it.
proof fn lemma_hushed_none(text: Seq<char>, tag: Seq<char>)
    requires
        hushed(text, tag),
        is_tag(tag),
    ensures
        first_occurrence(text, tag) is None,
        !occurs(text, tag),
{
    assert forall|at: int| 0 <= at && at + tag.len() <= text.len() implies !occurs_at(
        text,
        tag,
        at,
    ) by {
        lemma_hushed_stretch(text, tag, Seq::empty(), at);
        assert(text + Seq::<char>::empty() =~= text);
    }
    lemma_first_occurrence_absent(text, tag);
}

/// Text that is hushed for the marker changes nothing where it stands
/// ahead of text that is empty or begins with an opening angle bracket.
proof fn lemma_ahead(ahead: Seq<char>, text: Seq<char>, marker: Seq<char>)
    requires
        hushed(ahead, marker),
        is_tag(marker),
        begins_with_angle(text),
    ensures
        commands_in(ahead + text, marker) == commands_in(text, marker),
{
    let whole = ahead + text;
    lemma_behind(ahead, marker, text);
    lemma_first_occurrence(text, marker);
    match first_occurrence(text, marker) {
        Some(at) => {
            assert(occurs_at(text, marker, at));
            assert(whole.skip(ahead.len() + at + marker.len()) =~= text.skip(at + marker.len()));
        },
        None => {},
    }
}

/// Whether an instance name can scope blocks: it holds no angle bracket.
pub open spec fn plain_scope(scope: Option<Seq<char>>) -> bool {
    match scope {
        Some(name) => forall|i: int| 0 <= i < name.len() ==> name[i] != '<' && name[i] != '>',
        None => true,
    }
}

/// The opening marker of a plain scope is a tag, and begins as no other
/// tag of the markup does.
proof fn lemma_marker(scope: Option<Seq<char>>)
    requires
        plain_scope(scope),
    ensures
        is_tag(opening_marker(scope)),
        opening_marker(scope)[1] == 'f',
{
    reveal_strlit("<fs-command>");
    reveal_strlit("<fs-command name=\"");
    reveal_strlit("\">");
    match scope {
        Some(name) => {
            let head = "<fs-command name=\""@;
            let tail = "\">"@;
            let marker = opening_marker(scope);
            assert(marker == head + name + tail);
            assert(marker.len() == head.len() + name.len() + 2);
            assert forall|i: int| 0 <= i < marker.len() implies (marker[i] == '<' <==> i == 0) && (
            marker[i] == '>' <==> i == marker.len() - 1) by {
                if i < head.len() {
                    assert(marker[i] == head[i]);
                } else if i < head.len() + name.len() {
                    assert(marker[i] == name[i - head.len()]);
                } else {
                    assert(marker[i] == tail[i - head.len() - name.len()]);
                }
            }
            assert(marker[1] == head[1]);
        },
        None => {},
    }
}

/// The tags of the fields and the closing marker are tags, and these are
/// the letters that tell them apart.
proof fn lemma_tag_letters()
    ensures
        is_tag("<operation>"@) && "<operation>"@[1] == 'o' && "<operation>"@[2] == 'p',
        is_tag("</operation>"@) && "</operation>"@[1] == '/' && "</operation>"@[2] == 'o'
            && "</operation>"@[3] == 'p',
        is_tag("<path>"@) && "<path>"@[1] == 'p',
        is_tag("</path>"@) && "</path>"@[1] == '/' && "</path>"@[2] == 'p',
        is_tag("<content>"@) && "<content>"@[1] == 'c',
        is_tag("</content>"@) && "</content>"@[1] == '/' && "</content>"@[2] == 'c',
        is_tag("<old_text>"@) && "<old_text>"@[1] == 'o' && "<old_text>"@[2] == 'l',
        is_tag("</old_text>"@) && "</old_text>"@[1] == '/' && "</old_text>"@[2] == 'o'
            && "</old_text>"@[3] == 'l',
        is_tag("<new_text>"@) && "<new_text>"@[1] == 'n',
        is_tag("</new_text>"@) && "</new_text>"@[1] == '/' && "</new_text>"@[2] == 'n',
        is_tag(closing_marker()) && closing_marker()[1] == '/' && closing_marker()[2] == 'f',
{
    reveal_strlit("<operation>");
    reveal_strlit("</operation>");
    reveal_strlit("<path>");
    reveal_strlit("</path>");
    reveal_strlit("<content>");
    reveal_strlit("</content>");
    reveal_strlit("<old_text>");
    reveal_strlit("</old_text>");
    reveal_strlit("<new_text>");
    reveal_strlit("</new_text>");
    reveal_strlit("</fs-command>");
}

/// A block as it stands in a text: what is between its opening and its
/// closing marker, and what follows its closing marker up to the next
/// block.
pub struct Placed {
    pub body: Seq<char>,
    pub after: Seq<char>,
}

/// Whether a block stands apart from the others: neither marker stands in
/// its body, and the opening marker does not stand in what follows it.
pub open spec fn stands_alone(marker: Seq<char>, block: Placed) -> bool {
    &&& !occurs(block.body, marker)
    &&& !occurs(block.body, closing_marker())
    &&& !occurs(block.after, marker)
}

/// Blocks one behind the other: for each the opening marker, its body, the
/// closing marker, and what follows it.
pub open spec fn laid_out(marker: Seq<char>, blocks: Seq<Placed>) -> Seq<char>
    decreases blocks.len(),
{
    if blocks.len() == 0 {
        Seq::empty()
    } else {
        marker + blocks.first().body + closing_marker() + blocks.first().after + laid_out(
            marker,
            blocks.drop_first(),
        )
    }
}

/// The command that a body holds, as a list of one command or none.
pub open spec fn command_within(body: Seq<char>) -> Seq<CommandText> {
    match block_command(body) {
        Some(command) => seq![command],
        None => Seq::empty(),
    }
}

/// The commands that the bodies of the blocks hold, in the order of the
/// blocks.
pub open spec fn commands_placed(blocks: Seq<Placed>) -> Seq<CommandText>
    decreases blocks.len(),
{
    if blocks.len() == 0 {
        Seq::empty()
    } else {
        command_within(blocks.first().body) + commands_placed(blocks.drop_first())
    }
}

/// A block from its body to the text behind it.
spec fn placed_text(block: Placed) -> Seq<char> {
    block.body + closing_marker() + block.after
}

/// The opening marker begins nowhere in a block behind its own.
proof fn lemma_placed_hushed(marker: Seq<char>, block: Placed)
    requires
        is_tag(marker),
        marker[1] == 'f',
        stands_alone(marker, block),
    ensures
        hushed(placed_text(block), marker),
{
    let close = closing_marker();
    lemma_tag_letters();
    lemma_absent_hushed(block.body, marker);
    lemma_absent_hushed(block.after, marker);
    lemma_silent_tag(close, marker);
    lemma_silent_then_hushed(close, block.after, marker);
    assert((close + block.after)[0] == close[0]);
    lemma_hushed_concat(block.body, close + block.after, marker);
    assert(placed_text(block) =~= block.body + (close + block.after));
}

/// The body of a block ends where its closing marker begins.
proof fn lemma_placed_end(block: Placed)
    requires
        !occurs(block.body, closing_marker()),
    ensures
        first_occurrence(placed_text(block), closing_marker()) == Some(block.body.len() as int),
{
    let close = closing_marker();
    lemma_tag_letters();
    lemma_absent_hushed(block.body, close);
    assert(placed_text(block) =~= block.body + (close + block.after));
    assert((close + block.after)[0] == close[0]);
    lemma_found_at_head(close, block.after);
    lemma_behind(block.body, close, close + block.after);
}

/// The block that text behind an opening marker begins with is the one
/// that stands there.
proof fn lemma_leading_block(marker: Seq<char>, block: Placed, later: Seq<char>)
    requires
        is_tag(marker),
        marker[1] == 'f',
        stands_alone(marker, block),
        later.len() == 0 || (later[0] == '<' && first_occurrence(later, marker) == Some(0int)),
    ensures
        leading_block(placed_text(block) + later, marker) == Some(block.body),
{
    let text = placed_text(block);
    let rest = text + later;
    lemma_placed_hushed(marker, block);
    lemma_behind(text, marker, later);
    if later.len() == 0 {
        lemma_first_occurrence_absent(later, marker);
        assert(rest =~= text);
    } else {
        assert(rest.take(text.len() as int) =~= text);
    }
    lemma_placed_end(block);
    assert(text.take(block.body.len() as int) =~= block.body);
}

/// A block gives the command of its body, and what stands behind it gives
/// what it gives alone.
proof fn lemma_placed_read(marker: Seq<char>, block: Placed, later: Seq<char>)
    requires
        is_tag(marker),
        marker[1] == 'f',
        stands_alone(marker, block),
        later.len() == 0 || (later[0] == '<' && first_occurrence(later, marker) == Some(0int)),
    ensures
        commands_in(marker + placed_text(block) + later, marker) == command_within(block.body)
            + commands_in(later, marker),
{
    let rest = placed_text(block) + later;
    let text = marker + placed_text(block) + later;
    assert(text =~= marker + rest);
    lemma_found_at_head(marker, rest);
    assert(text.skip(marker.len() as int) =~= rest);
    lemma_leading_block(marker, block, later);
    lemma_placed_hushed(marker, block);
    lemma_ahead(placed_text(block), later, marker);
    assert(commands_in(text, marker) == leading_command(rest, marker) + commands_in(rest, marker));
}

/// Blocks that are laid out begin with the opening marker.
proof fn lemma_laid_out_head(marker: Seq<char>, blocks: Seq<Placed>)
    requires
        is_tag(marker),
    ensures
        blocks.len() == 0 ==> laid_out(marker, blocks).len() == 0,
        blocks.len() > 0 ==> laid_out(marker, blocks)[0] == '<' && first_occurrence(
            laid_out(marker, blocks),
            marker,
        ) == Some(0int),
{
    if blocks.len() > 0 {
        let beyond = placed_text(blocks.first()) + laid_out(marker, blocks.drop_first());
        assert(laid_out(marker, blocks) =~= marker + beyond);
        lemma_found_at_head(marker, beyond);
    }
}

proof fn lemma_laid_out_read(marker: Seq<char>, blocks: Seq<Placed>)
    requires
        is_tag(marker),
        marker[1] == 'f',
        forall|i: int| 0 <= i < blocks.len() ==> stands_alone(marker, #[trigger] blocks[i]),
    ensures
        commands_in(laid_out(marker, blocks), marker) == commands_placed(blocks),
    decreases blocks.len(),
{
    if blocks.len() == 0 {
        lemma_first_occurrence_absent(laid_out(marker, blocks), marker);
    } else {
        let block = blocks.first();
        let others = blocks.drop_first();
        let later = laid_out(marker, others);
        assert(stands_alone(marker, blocks[0]));
        assert forall|i: int| 0 <= i < others.len() implies stands_alone(
            marker,
            #[trigger] others[i],
        ) by {
            assert(others[i] == blocks[i + 1]);
        }
        lemma_laid_out_read(marker, others);
        lemma_laid_out_head(marker, others);
        lemma_placed_read(marker, block, later);
        assert(laid_out(marker, blocks) =~= marker + placed_text(block) + later);
    }
}

/// Blocks that stand apart are read one by one.
///
/// Take any text in which blocks of one scope stand one behind the other:
/// ahead of the first block any text in which the scope's opening marker
/// does not stand, then for each block the opening marker, a body in which
/// neither marker stands, the closing marker, and any text in which the
/// opening marker does not stand. What is read from it with that scope is,
/// block by block and in their order, the command that the body holds, or
/// nothing where the body holds none. The scope's name holds no angle
/// bracket.
pub proof fn law_blocks_are_read(scope: Option<Seq<char>>, ahead: Seq<char>, blocks: Seq<Placed>)
    requires
        plain_scope(scope),
        !occurs(ahead, opening_marker(scope)),
        forall|i: int|
            0 <= i < blocks.len() ==> stands_alone(opening_marker(scope), #[trigger] blocks[i]),
    ensures
        commands_in(ahead + laid_out(opening_marker(scope), blocks), opening_marker(scope))
            == commands_placed(blocks),
{
    let marker = opening_marker(scope);
    lemma_marker(scope);
    lemma_laid_out_read(marker, blocks);
    lemma_laid_out_head(marker, blocks);
    lemma_absent_hushed(ahead, marker);
    lemma_ahead(ahead, laid_out(marker, blocks), marker);
}

/// Whether a body holds a command: it has its operation and its path, each
/// with its first closing tag behind its first opening tag.
pub open spec fn holds_command(body: Seq<char>) -> bool {
    &&& field_text(body, "<operation>"@, "</operation>"@) is Some
    &&& field_text(body, "<path>"@, "</path>"@) is Some
}

proof fn lemma_all_hold_commands(blocks: Seq<Placed>)
    requires
        forall|i: int| 0 <= i < blocks.len() ==> holds_command((#[trigger] blocks[i]).body),
    ensures
        commands_placed(blocks).len() == blocks.len(),
        forall|i: int|
            0 <= i < blocks.len() ==> block_command((#[trigger] blocks[i]).body) == Some(
                commands_placed(blocks)[i],
            ),
    decreases blocks.len(),
{
    if blocks.len() > 0 {
        let others = blocks.drop_first();
        assert(holds_command(blocks[0].body));
        assert forall|i: int| 0 <= i < others.len() implies holds_command(
            (#[trigger] others[i]).body,
        ) by {
            assert(others[i] == blocks[i + 1]);
        }
        lemma_all_hold_commands(others);
        assert forall|i: int| 0 <= i < blocks.len() implies block_command(
            (#[trigger] blocks[i]).body,
        ) == Some(commands_placed(blocks)[i]) by {
            if i > 0 {
                assert(blocks[i] == others[i - 1]);
            }
        }
    }
}

/// Blocks that stand apart and each hold a command give one command each.
///
/// Where every body has its operation and its path, each between its first
/// opening and its first closing tag, as many commands are read as there
/// are blocks, and the command at each place is the command of the body at
/// that place: every field is the text between the field's first opening
/// and first closing tag in that body, letter for letter, and a field
/// whose tags are not both there, in that order, is missing.
pub proof fn law_one_command_per_block(
    scope: Option<Seq<char>>,
    ahead: Seq<char>,
    blocks: Seq<Placed>,
)
    requires
        plain_scope(scope),
        !occurs(ahead, opening_marker(scope)),
        forall|i: int|
            0 <= i < blocks.len() ==> stands_alone(opening_marker(scope), #[trigger] blocks[i]),
        forall|i: int| 0 <= i < blocks.len() ==> holds_command((#[trigger] blocks[i]).body),
    ensures
        ({
            let read = commands_in(
                ahead + laid_out(opening_marker(scope), blocks),
                opening_marker(scope),
            );
            &&& read.len() == blocks.len()
            &&& forall|i: int|
                0 <= i < blocks.len() ==> block_command((#[trigger] blocks[i]).body) == Some(
                    read[i],
                )
        }),
{
    law_blocks_are_read(scope, ahead, blocks);
    lemma_all_hold_commands(blocks);
}

proof fn lemma_dropped_gives_nothing(blocks: Seq<Placed>, at: int, dropped: Placed)
    requires
        0 <= at <= blocks.len(),
        !holds_command(dropped.body),
    ensures
        commands_placed(blocks.insert(at, dropped)) == commands_placed(blocks),
    decreases at,
{
    let with = blocks.insert(at, dropped);
    if at == 0 {
        assert(with.first() == dropped);
        assert(with.drop_first() =~= blocks);
        assert(command_within(dropped.body) + commands_placed(blocks) =~= commands_placed(blocks));
    } else {
        assert(with.first() == blocks.first());
        assert(with.drop_first() =~= blocks.drop_first().insert(at - 1, dropped));
        lemma_dropped_gives_nothing(blocks.drop_first(), at - 1, dropped);
    }
}

/// A block that holds no command changes nothing in what the others give.
///
/// Put a block whose body lacks its operation or its path among blocks
/// that stand apart, at either end or between two of them. What is read is
/// what is read without it: the same commands in the same order.
pub proof fn law_dropped_block_changes_nothing(
    scope: Option<Seq<char>>,
    ahead: Seq<char>,
    blocks: Seq<Placed>,
    at: int,
    dropped: Placed,
)
    requires
        plain_scope(scope),
        !occurs(ahead, opening_marker(scope)),
        forall|i: int|
            0 <= i < blocks.len() ==> stands_alone(opening_marker(scope), #[trigger] blocks[i]),
        stands_alone(opening_marker(scope), dropped),
        0 <= at <= blocks.len(),
        !holds_command(dropped.body),
    ensures
        commands_in(
            ahead + laid_out(opening_marker(scope), blocks.insert(at, dropped)),
            opening_marker(scope),
        ) == commands_in(ahead + laid_out(opening_marker(scope), blocks), opening_marker(scope)),
{
    let marker = opening_marker(scope);
    let with = blocks.insert(at, dropped);
    assert forall|i: int| 0 <= i < with.len() implies stands_alone(marker, #[trigger] with[i]) by {
        if i < at {
            assert(with[i] == blocks[i]);
        } else if i > at {
            assert(with[i] == blocks[i - 1]);
        }
    }
    law_blocks_are_read(scope, ahead, with);
    law_blocks_are_read(scope, ahead, blocks);
    lemma_dropped_gives_nothing(blocks, at, dropped);
}

/// One field of a block as it is written: the text ahead of it, its tags,
/// and its text where the field is there.
pub struct Slot {
    pub lead: Seq<char>,
    pub open: Seq<char>,
    pub value: Option<Seq<char>>,
    pub close: Seq<char>,
}

/// A field as it is written: the text ahead of it and, where the field is
/// there, its text between its tags.
pub open spec fn written_slot(slot: Slot) -> Seq<char> {
    match slot.value {
        Some(value) => slot.lead + slot.open + value + slot.close,
        None => slot.lead,
    }
}

/// Fields as they are written, one behind the other.
pub open spec fn written_slots(slots: Seq<Slot>) -> Seq<char>
    decreases slots.len(),
{
    if slots.len() == 0 {
        Seq::empty()
    } else {
        written_slots(slots.drop_last()) + written_slot(slots.last())
    }
}

/// The text around the fields of a block: what stands ahead of each field,
/// and what stands between the last field and the closing marker. Line
/// breaks and indentation stand here.
pub struct Gaps {
    pub operation: Seq<char>,
    pub path: Seq<char>,
    pub content: Seq<char>,
    pub old_text: Seq<char>,
    pub new_text: Seq<char>,
    pub close: Seq<char>,
}

/// A block as its author means it: each field there or not, the text
/// around the fields, and the text that follows the block.
pub struct BlockText {
    pub operation: Option<Seq<char>>,
    pub path: Option<Seq<char>>,
    pub content: Option<Seq<char>>,
    pub old_text: Option<Seq<char>>,
    pub new_text: Option<Seq<char>>,
    pub gaps: Gaps,
    /// What stands between the block's closing marker and the next block.
    pub after: Seq<char>,
}

/// The fields of a block, in the order in which they are written.
pub open spec fn block_slots(block: BlockText) -> Seq<Slot> {
    seq![
        Slot {
            lead: block.gaps.operation,
            open: "<operation>"@,
            value: block.operation,
            close: "</operation>"@,
        },
        Slot { lead: block.gaps.path, open: "<path>"@, value: block.path, close: "</path>"@ },
        Slot {
            lead: block.gaps.content,
            open: "<content>"@,
            value: block.content,
            close: "</content>"@,
        },
        Slot {
            lead: block.gaps.old_text,
            open: "<old_text>"@,
            value: block.old_text,
            close: "</old_text>"@,
        },
        Slot {
            lead: block.gaps.new_text,
            open: "<new_text>"@,
            value: block.new_text,
            close: "</new_text>"@,
        },
    ]
}

/// Whether a field's text, if the field is there, holds no opening angle
/// bracket.
pub open spec fn plain_value(value: Option<Seq<char>>) -> bool {
    match value {
        Some(text) => plain(text),
        None => true,
    }
}

/// Whether a block is written plainly: neither the texts of its fields nor
/// the texts around them hold an opening angle bracket.
pub open spec fn plainly_written(block: BlockText) -> bool {
    &&& plain_value(block.operation)
    &&& plain_value(block.path)
    &&& plain_value(block.content)
    &&& plain_value(block.old_text)
    &&& plain_value(block.new_text)
    &&& plain(block.gaps.operation)
    &&& plain(block.gaps.path)
    &&& plain(block.gaps.content)
    &&& plain(block.gaps.old_text)
    &&& plain(block.gaps.new_text)
    &&& plain(block.gaps.close)
}

/// The body of a block as it is written: the fields, each behind the text
/// ahead of it, and the text ahead of the closing marker.
pub open spec fn written_body(block: BlockText) -> Seq<char> {
    written_slots(block_slots(block)) + block.gaps.close
}

/// The blocks as they stand in the text once they are written.
pub open spec fn placed(blocks: Seq<BlockText>) -> Seq<Placed> {
    blocks.map_values(|block: BlockText| Placed { body: written_body(block), after: block.after })
}

/// Blocks as they are written, one behind the other.
pub open spec fn written(marker: Seq<char>, blocks: Seq<BlockText>) -> Seq<char> {
    laid_out(marker, placed(blocks))
}

/// The command that a block gives: none where its operation or its path
/// is not there.
pub open spec fn command_written(block: BlockText) -> Option<CommandText> {
    match (block.operation, block.path) {
        (Some(operation), Some(path)) => Some(
            CommandText {
                operation,
                path,
                content: block.content,
                old_text: block.old_text,
                new_text: block.new_text,
            },
        ),
        _ => None,
    }
}

/// The commands that blocks give, in the order of the blocks.
pub open spec fn commands_written(blocks: Seq<BlockText>) -> Seq<CommandText>
    decreases blocks.len(),
{
    if blocks.len() == 0 {
        Seq::empty()
    } else {
        let first = match command_written(blocks.first()) {
            Some(command) => seq![command],
            None => Seq::empty(),
        };
        first + commands_written(blocks.drop_first())
    }
}

/// Whether the slots are made of tags and plain texts.
spec fn slots_sound(slots: Seq<Slot>) -> bool {
    forall|j: int|
        0 <= j < slots.len() ==> is_tag((#[trigger] slots[j]).open) && is_tag(slots[j].close)
            && plain_value(slots[j].value) && plain(slots[j].lead)
}

/// Whether none of the slots has `tag` for a tag.
spec fn slots_avoid(slots: Seq<Slot>, tag: Seq<char>) -> bool {
    forall|j: int|
        0 <= j < slots.len() ==> (#[trigger] slots[j]).open != tag && slots[j].close != tag
}

/// Whether slot `k` shares no tag with another slot, and has two tags.
spec fn stands_apart(slots: Seq<Slot>, k: int) -> bool {
    &&& slots[k].open != slots[k].close
    &&& slots_avoid(slots.take(k), slots[k].open)
    &&& slots_avoid(slots.take(k), slots[k].close)
    &&& slots_avoid(slots.skip(k + 1), slots[k].open)
    &&& slots_avoid(slots.skip(k + 1), slots[k].close)
}

proof fn lemma_slots_silent(slots: Seq<Slot>, tag: Seq<char>)
    requires
        slots_sound(slots),
        slots_avoid(slots, tag),
        is_tag(tag),
    ensures
        silent(written_slots(slots), tag),
    decreases slots.len(),
{
    if slots.len() > 0 {
        let last = slots.last();
        let front = slots.drop_last();
        assert(front.len() < slots.len());
        assert forall|j: int| 0 <= j < front.len() implies is_tag((#[trigger] front[j]).open)
            && is_tag(front[j].close) && plain_value(front[j].value) && plain(front[j].lead)
            && front[j].open != tag && front[j].close != tag by {
            assert(front[j] == slots[j]);
        }
        lemma_slots_silent(front, tag);
        assert(slots[slots.len() - 1] == last);
        lemma_silent_plain(last.lead, tag);
        match last.value {
            Some(value) => {
                lemma_silent_tag(last.open, tag);
                lemma_silent_plain(value, tag);
                lemma_silent_tag(last.close, tag);
                lemma_silent_concat(last.lead, last.open, tag);
                lemma_silent_concat(last.lead + last.open, value, tag);
                lemma_silent_concat(last.lead + last.open + value, last.close, tag);
            },
            None => {},
        }
        lemma_silent_concat(written_slots(front), written_slot(last), tag);
    }
}

proof fn lemma_slots_concat(first: Seq<Slot>, second: Seq<Slot>)
    ensures
        written_slots(first + second) == written_slots(first) + written_slots(second),
    decreases second.len(),
{
    if second.len() == 0 {
        assert(first + second =~= first);
        assert(written_slots(first) + written_slots(second) =~= written_slots(first));
    } else {
        let both = first + second;
        assert(both.drop_last() =~= first + second.drop_last());
        assert(both.last() == second.last());
        lemma_slots_concat(first, second.drop_last());
        assert(written_slots(both) =~= written_slots(first) + written_slots(second));
    }
}

/// A field that stands between texts that are silent for its tags is read
/// as it was written.
proof fn lemma_field_read(before: Seq<char>, slot: Slot, after: Seq<char>)
    requires
        is_tag(slot.open),
        is_tag(slot.close),
        slot.open != slot.close,
        plain_value(slot.value),
        plain(slot.lead),
        silent(before, slot.open),
        silent(before, slot.close),
        silent(after, slot.open),
        silent(after, slot.close),
    ensures
        field_text(before + written_slot(slot) + after, slot.open, slot.close) == slot.value,
{
    let text = before + written_slot(slot) + after;
    let ahead = before + slot.lead;
    lemma_silent_plain(slot.lead, slot.open);
    lemma_silent_plain(slot.lead, slot.close);
    lemma_silent_concat(before, slot.lead, slot.open);
    lemma_silent_concat(before, slot.lead, slot.close);
    match slot.value {
        Some(value) => {
            let tail = value + slot.close + after;
            assert(text =~= ahead + (slot.open + tail));
            assert((slot.open + tail)[0] == slot.open[0]);
            lemma_found_at_head(slot.open, tail);
            lemma_silent_hushed(ahead, slot.open);
            lemma_behind(ahead, slot.open, slot.open + tail);
            let head = ahead + slot.open + value;
            lemma_silent_tag(slot.open, slot.close);
            lemma_silent_plain(value, slot.close);
            lemma_silent_concat(ahead, slot.open, slot.close);
            lemma_silent_concat(ahead + slot.open, value, slot.close);
            assert(text =~= head + (slot.close + after));
            assert((slot.close + after)[0] == slot.close[0]);
            lemma_found_at_head(slot.close, after);
            lemma_silent_hushed(head, slot.close);
            lemma_behind(head, slot.close, slot.close + after);
            assert(text.subrange((ahead.len() + slot.open.len()) as int, head.len() as int)
                =~= value);
        },
        None => {
            assert(text =~= ahead + after);
            lemma_silent_concat(ahead, after, slot.open);
            lemma_silent_hushed(text, slot.open);
            lemma_hushed_none(text, slot.open);
        },
    }
}

/// Among fields none of which shares a tag with it, and ahead of plain
/// text, a field is read as it was written.
proof fn lemma_slot_read(slots: Seq<Slot>, k: int, tail: Seq<char>)
    requires
        slots_sound(slots),
        plain(tail),
        0 <= k < slots.len(),
        stands_apart(slots, k),
    ensures
        field_text(written_slots(slots) + tail, slots[k].open, slots[k].close) == slots[k].value,
{
    let front = slots.take(k);
    let back = slots.skip(k + 1);
    let slot = slots[k];
    assert(slots =~= front + seq![slot] + back);
    lemma_slots_concat(front + seq![slot], back);
    lemma_slots_concat(front, seq![slot]);
    assert(written_slots(seq![slot]) =~= written_slot(slot)) by {
        reveal_with_fuel(written_slots, 2);
        assert(seq![slot].drop_last() =~= Seq::<Slot>::empty());
        assert(seq![slot].last() == slot);
    }
    assert forall|j: int| 0 <= j < front.len() implies is_tag((#[trigger] front[j]).open)
        && is_tag(front[j].close) && plain_value(front[j].value) && plain(front[j].lead) by {
        assert(front[j] == slots[j]);
    }
    assert forall|j: int| 0 <= j < back.len() implies is_tag((#[trigger] back[j]).open) && is_tag(
        back[j].close,
    ) && plain_value(back[j].value) && plain(back[j].lead) by {
        assert(back[j] == slots[k + 1 + j]);
    }
    lemma_slots_silent(front, slot.open);
    lemma_slots_silent(front, slot.close);
    lemma_slots_silent(back, slot.open);
    lemma_slots_silent(back, slot.close);
    lemma_silent_plain(tail, slot.open);
    lemma_silent_plain(tail, slot.close);
    lemma_silent_concat(written_slots(back), tail, slot.open);
    lemma_silent_concat(written_slots(back), tail, slot.close);
    lemma_field_read(written_slots(front), slot, written_slots(back) + tail);
    assert(written_slots(slots) + tail =~= written_slots(front) + written_slot(slot) + (
    written_slots(back) + tail));
}

/// The tags of two different fields are four different tags.
proof fn lemma_slots_differ(block: BlockText, j: int, k: int)
    requires
        0 <= j < 5,
        0 <= k < 5,
        j != k,
    ensures
        block_slots(block)[j].open != block_slots(block)[k].open,
        block_slots(block)[j].open != block_slots(block)[k].close,
        block_slots(block)[j].close != block_slots(block)[k].open,
        block_slots(block)[j].close != block_slots(block)[k].close,
{
    lemma_tag_letters();
}

/// The fields of a plainly written block are tags and plain texts, and no
/// two of their tags are the same.
proof fn lemma_block_tags(block: BlockText)
    requires
        plainly_written(block),
    ensures
        slots_sound(block_slots(block)),
        slots_avoid(block_slots(block), closing_marker()),
        forall|k: int| 0 <= k < 5 ==> #[trigger] stands_apart(block_slots(block), k),
{
    lemma_tag_letters();
    let slots = block_slots(block);
    assert(slots.len() == 5);
    assert forall|k: int| 0 <= k < 5 implies #[trigger] stands_apart(slots, k) by {
        let front = slots.take(k);
        let back = slots.skip(k + 1);
        assert forall|j: int| 0 <= j < front.len() implies (#[trigger] front[j]).open != slots[k].open
            && front[j].close != slots[k].open && front[j].open != slots[k].close
            && front[j].close != slots[k].close by {
            assert(front[j] == slots[j]);
            lemma_slots_differ(block, j, k);
        }
        assert forall|j: int| 0 <= j < back.len() implies (#[trigger] back[j]).open != slots[k].open
            && back[j].close != slots[k].open && back[j].open != slots[k].close && back[j].close
            != slots[k].close by {
            assert(back[j] == slots[k + 1 + j]);
            lemma_slots_differ(block, k + 1 + j, k);
        }
    }
}

/// A tag that begins as the opening marker does is none of the tags of the
/// fields.
proof fn lemma_marker_apart(block: BlockText, marker: Seq<char>)
    requires
        is_tag(marker),
        marker[1] == 'f',
    ensures
        slots_avoid(block_slots(block), marker),
{
    lemma_tag_letters();
}

/// The fields of a plainly written block are read as they were written.
proof fn lemma_fields_read(block: BlockText)
    requires
        plainly_written(block),
    ensures
        block_command(written_body(block)) == command_written(block),
{
    let slots = block_slots(block);
    lemma_block_tags(block);
    assert(stands_apart(slots, 0) && stands_apart(slots, 1) && stands_apart(slots, 2)
        && stands_apart(slots, 3) && stands_apart(slots, 4));
    lemma_slot_read(slots, 0, block.gaps.close);
    lemma_slot_read(slots, 1, block.gaps.close);
    lemma_slot_read(slots, 2, block.gaps.close);
    lemma_slot_read(slots, 3, block.gaps.close);
    lemma_slot_read(slots, 4, block.gaps.close);
}

/// Neither marker stands in the body of a plainly written block.
proof fn lemma_body_apart(marker: Seq<char>, block: BlockText)
    requires
        is_tag(marker),
        marker[1] == 'f',
        plainly_written(block),
    ensures
        !occurs(written_body(block), marker),
        !occurs(written_body(block), closing_marker()),
{
    let fields = written_slots(block_slots(block));
    let close = closing_marker();
    lemma_tag_letters();
    lemma_block_tags(block);
    lemma_marker_apart(block, marker);
    lemma_slots_silent(block_slots(block), marker);
    lemma_slots_silent(block_slots(block), close);
    lemma_silent_plain(block.gaps.close, marker);
    lemma_silent_plain(block.gaps.close, close);
    lemma_silent_concat(fields, block.gaps.close, marker);
    lemma_silent_concat(fields, block.gaps.close, close);
    lemma_silent_hushed(written_body(block), marker);
    lemma_silent_hushed(written_body(block), close);
    lemma_hushed_none(written_body(block), marker);
    lemma_hushed_none(written_body(block), close);
}

proof fn lemma_written_commands(blocks: Seq<BlockText>)
    requires
        forall|i: int| 0 <= i < blocks.len() ==> plainly_written(#[trigger] blocks[i]),
    ensures
        commands_placed(placed(blocks)) == commands_written(blocks),
    decreases blocks.len(),
{
    if blocks.len() > 0 {
        let others = blocks.drop_first();
        assert(plainly_written(blocks[0]));
        assert forall|i: int| 0 <= i < others.len() implies plainly_written(
            #[trigger] others[i],
        ) by {
            assert(others[i] == blocks[i + 1]);
        }
        lemma_written_commands(others);
        lemma_fields_read(blocks.first());
        assert(placed(blocks).drop_first() =~= placed(others));
        assert(placed(blocks).first().body == written_body(blocks.first()));
    } else {
        assert(placed(blocks).len() == 0);
    }
}

/// Plainly written blocks are read as they were written.
///
/// Take any blocks whose field texts hold no opening angle bracket. Write
/// each with the opening marker of a scope whose name holds no angle
/// bracket, with any text without an opening angle bracket around its
/// fields, and with any text in which the opening marker does not stand
/// ahead of the first block and behind each. Read the whole with that
/// scope. What is read is one command for each block that has an operation
/// and a path, in the order of the blocks, with every field as it was
/// written and the fields that were left out missing.
pub proof fn law_written_blocks_are_read(
    scope: Option<Seq<char>>,
    ahead: Seq<char>,
    blocks: Seq<BlockText>,
)
    requires
        plain_scope(scope),
        !occurs(ahead, opening_marker(scope)),
        forall|i: int| 0 <= i < blocks.len() ==> plainly_written(#[trigger] blocks[i]),
        forall|i: int|
            0 <= i < blocks.len() ==> !occurs((#[trigger] blocks[i]).after, opening_marker(scope)),
    ensures
        commands_in(ahead + written(opening_marker(scope), blocks), opening_marker(scope))
            == commands_written(blocks),
{
    let marker = opening_marker(scope);
    let stand = placed(blocks);
    lemma_marker(scope);
    assert forall|i: int| 0 <= i < stand.len() implies stands_alone(marker, #[trigger] stand[i]) by {
        assert(plainly_written(blocks[i]));
        assert(!occurs(blocks[i].after, marker));
        lemma_body_apart(marker, blocks[i]);
    }
    law_blocks_are_read(scope, ahead, stand);
    lemma_written_commands(blocks);
}

} // verus!
