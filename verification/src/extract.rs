//! Finding command blocks in text.

use crate::command::{command_texts, optional_text, CommandText, FsCommand};
use crate::session::State;
use crate::text::{chars_of, find_in, first_occurrence, lemma_first_occurrence, text_of};
use vstd::prelude::*;

verus! {

/// The marker that opens a block: bare, or carrying the instance name.
pub open spec fn opening_marker(scope: Option<Seq<char>>) -> Seq<char> {
    match scope {
        Some(name) => "<fs-command name=\""@ + name + "\">"@,
        None => "<fs-command>"@,
    }
}

/// The marker that closes a block.
pub open spec fn closing_marker() -> Seq<char> {
    "</fs-command>"@
}

/// The text between the first `open` and the first `close` of `block`.
/// There is none where either is missing or the first `close` comes before
/// the end of the first `open`.
pub open spec fn field_text(block: Seq<char>, open: Seq<char>, close: Seq<char>) -> Option<
    Seq<char>,
> {
    match (first_occurrence(block, open), first_occurrence(block, close)) {
        (Some(start), Some(end)) => {
            if start + open.len() <= end {
                Some(block.subrange(start + open.len(), end))
            } else {
                None
            }
        },
        _ => None,
    }
}

/// The command that a block holds. A block without an operation or without
/// a path holds none.
pub open spec fn block_command(block: Seq<char>) -> Option<CommandText> {
    match (
        field_text(block, "<operation>"@, "</operation>"@),
        field_text(block, "<path>"@, "</path>"@),
    ) {
        (Some(operation), Some(path)) => Some(
            CommandText {
                operation,
                path,
                content: field_text(block, "<content>"@, "</content>"@),
                old_text: field_text(block, "<old_text>"@, "</old_text>"@),
                new_text: field_text(block, "<new_text>"@, "</new_text>"@),
            },
        ),
        _ => None,
    }
}

/// The block that starts where `rest` starts, `rest` being the text behind
/// an opening marker. The block ends at the first closing marker, which has
/// to come before the next opening marker.
pub open spec fn leading_block(rest: Seq<char>, marker: Seq<char>) -> Option<Seq<char>> {
    let stretch = match first_occurrence(rest, marker) {
        Some(next) => rest.take(next),
        None => rest,
    };
    match first_occurrence(stretch, closing_marker()) {
        Some(end) => Some(stretch.take(end)),
        None => None,
    }
}

/// The command of the block that starts where `rest` starts, as a list of
/// one command or none.
pub open spec fn leading_command(rest: Seq<char>, marker: Seq<char>) -> Seq<CommandText> {
    match leading_block(rest, marker) {
        Some(block) => match block_command(block) {
            Some(command) => seq![command],
            None => Seq::empty(),
        },
        None => Seq::empty(),
    }
}

/// The commands of `text`, in the order in which their blocks stand in it.
/// Opening markers are taken from left to right and do not overlap.
pub open spec fn commands_in(text: Seq<char>, marker: Seq<char>) -> Seq<CommandText>
    decreases text.len(),
    when marker.len() > 0
{
    match first_occurrence(text, marker) {
        None => Seq::empty(),
        Some(at) => {
            proof {
                lemma_first_occurrence(text, marker);
            }
            let rest = text.skip(at + marker.len());
            leading_command(rest, marker) + commands_in(rest, marker)
        },
    }
}

/// Reads one field out of the block `text[lo..hi]`.
fn read_field(text: &Vec<char>, lo: usize, hi: usize, open: &str, close: &str) -> (field: Option<
    String,
>)
    requires
        lo <= hi <= text.len(),
    ensures
        optional_text(field) == field_text(text@.subrange(lo as int, hi as int), open@, close@),
{
    let open_chars = chars_of(open);
    let close_chars = chars_of(close);
    let ghost block = text@.subrange(lo as int, hi as int);
    match find_in(text, lo, hi, &open_chars) {
        Some(start) => match find_in(text, lo, hi, &close_chars) {
            Some(end) => {
                if start + open_chars.len() <= end {
                    let field = text_of(text, start + open_chars.len(), end);
                    proof {
                        assert(block.subrange(start - lo + open@.len(), end - lo) =~= text@.subrange(
                            start + open@.len(),
                            end as int,
                        ));
                    }
                    Some(field)
                } else {
                    None
                }
            },
            None => None,
        },
        None => None,
    }
}

/// Reads the command out of the block `text[lo..hi]`.
fn read_block(text: &Vec<char>, lo: usize, hi: usize) -> (command: Option<FsCommand>)
    requires
        lo <= hi <= text.len(),
    ensures
        command is Some <==> block_command(text@.subrange(lo as int, hi as int)) is Some,
        command matches Some(c) ==> Some(c@) == block_command(text@.subrange(lo as int, hi as int)),
{
    let operation = read_field(text, lo, hi, "<operation>", "</operation>");
    let path = read_field(text, lo, hi, "<path>", "</path>");
    match (operation, path) {
        (Some(operation), Some(path)) => {
            let content = read_field(text, lo, hi, "<content>", "</content>");
            let old_text = read_field(text, lo, hi, "<old_text>", "</old_text>");
            let new_text = read_field(text, lo, hi, "<new_text>", "</new_text>");
            Some(FsCommand { operation, path, content, old_text, new_text })
        },
        _ => None,
    }
}

/// The marker that opens a block of the given scope.
pub fn marker_for(scope: Option<&str>) -> (marker: String)
    ensures
        marker@ == opening_marker(
            match scope {
                Some(name) => Some(name@),
                None => None,
            },
        ),
        marker@.len() > 0,
{
    proof {
        reveal_strlit("<fs-command>");
        reveal_strlit("<fs-command name=\"");
    }
    match scope {
        Some(name) => {
            let mut marker = String::from_str("<fs-command name=\"");
            marker.append(name);
            marker.append("\">");
            marker
        },
        None => String::from_str("<fs-command>"),
    }
}

impl State {
    /// Extracts the commands of `content`, in the order of their blocks.
    ///
    /// With an instance name, only the blocks opened by
    /// `<fs-command name="..">` with that name are read; without one, only
    /// those opened by the bare `<fs-command>`. A block that lacks its
    /// closing marker, its operation or its path is passed over, and the
    /// blocks around it are read as if it were not there.
    pub fn extract_fs_commands(content: &str, instance_name: Option<&str>) -> (commands: Vec<
        FsCommand,
    >)
        ensures
            command_texts(commands@) == commands_in(
                content@,
                opening_marker(
                    match instance_name {
                        Some(name) => Some(name@),
                        None => None,
                    },
                ),
            ),
    {
        let text = chars_of(content);
        let marker_text = marker_for(instance_name);
        let marker = chars_of(marker_text.as_str());
        let close = chars_of("</fs-command>");
        let n = text.len();
        let mut commands: Vec<FsCommand> = Vec::new();
        let mut from: usize = 0;
        proof {
            assert(text@.skip(0) =~= text@);
            assert(command_texts(commands@) + commands_in(text@, marker@) =~= commands_in(
                text@,
                marker@,
            ));
        }
        loop
            invariant
                from <= n,
                n == text.len(),
                marker@.len() > 0,
                close@ == closing_marker(),
                text@ == content@,
                marker@ == opening_marker(
                    match instance_name {
                        Some(name) => Some(name@),
                        None => None,
                    },
                ),
                command_texts(commands@) + commands_in(text@.skip(from as int), marker@)
                    == commands_in(text@, marker@),
            decreases n - from,
        {
            let ghost tail = text@.skip(from as int);
            let ghost before = command_texts(commands@);
            proof {
                assert(tail == text@.subrange(from as int, n as int));
            }
            match find_in(&text, from, n, &marker) {
                None => {
                    proof {
                        assert(before + Seq::<CommandText>::empty() =~= before);
                    }
                    return commands;
                },
                Some(at) => {
                    let start = at + marker.len();
                    let ghost rest = tail.skip(at - from + marker@.len());
                    proof {
                        assert(rest =~= text@.skip(start as int));
                        assert(rest =~= text@.subrange(start as int, n as int));
                    }
                    let stop = match find_in(&text, start, n, &marker) {
                        Some(next) => next,
                        None => n,
                    };
                    let ghost stretch = text@.subrange(start as int, stop as int);
                    proof {
                        assert(rest.take(stop - start) =~= stretch);
                        assert(rest.take(n - start) =~= rest);
                    }
                    match find_in(&text, start, stop, &close) {
                        Some(end) => {
                            proof {
                                assert(stretch.take(end - start) =~= text@.subrange(
                                    start as int,
                                    end as int,
                                ));
                            }
                            match read_block(&text, start, end) {
                                Some(command) => {
                                    proof {
                                        assert(leading_command(rest, marker@) == seq![command@]);
                                        assert(command_texts(commands@.push(command))
                                            =~= before + seq![command@]);
                                    }
                                    commands.push(command);
                                },
                                None => {
                                    proof {
                                        assert(leading_command(rest, marker@)
                                            == Seq::<CommandText>::empty());
                                    }
                                },
                            }
                        },
                        None => {
                            proof {
                                assert(leading_command(rest, marker@)
                                    == Seq::<CommandText>::empty());
                            }
                        },
                    }
                    proof {
                        assert(commands_in(tail, marker@) == leading_command(rest, marker@)
                            + commands_in(rest, marker@));
                        assert(command_texts(commands@) =~= before + leading_command(rest, marker@));
                        assert(command_texts(commands@) + commands_in(rest, marker@) =~= before
                            + commands_in(tail, marker@));
                    }
                    from = start;
                },
            }
        }
    }
}

} // verus!
