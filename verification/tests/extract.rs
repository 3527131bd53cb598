use fs_commands::command::FsCommand;
use fs_commands::extract::marker_for;
use fs_commands::session::State;

fn fields(c: &FsCommand) -> (String, String, Option<String>, Option<String>, Option<String>) {
    (
        c.operation.clone(),
        c.path.clone(),
        c.content.clone(),
        c.old_text.clone(),
        c.new_text.clone(),
    )
}

fn text(s: &str) -> String {
    s.to_string()
}

#[test]
fn bare_block_gives_one_command() {
    let input = "<fs-command><operation>list-files</operation><path>.</path></fs-command>";
    let commands = State::extract_fs_commands(input, None);
    assert_eq!(commands.len(), 1);
    assert_eq!(fields(&commands[0]), (text("list-files"), text("."), None, None, None));
}

#[test]
fn scoped_block_is_read_by_its_instance_only() {
    let input = "<fs-command name=\"alpha\"><operation>read-file</operation><path>a.txt</path></fs-command>\
                 <fs-command name=\"beta\"><operation>read-file</operation><path>b.txt</path></fs-command>\
                 <fs-command><operation>read-file</operation><path>c.txt</path></fs-command>";
    let alpha = State::extract_fs_commands(input, Some("alpha"));
    assert_eq!(alpha.len(), 1);
    assert_eq!(alpha[0].path, "a.txt");
    let beta = State::extract_fs_commands(input, Some("beta"));
    assert_eq!(beta.len(), 1);
    assert_eq!(beta[0].path, "b.txt");
    let bare = State::extract_fs_commands(input, None);
    assert_eq!(bare.len(), 1);
    assert_eq!(bare[0].path, "c.txt");
    assert_eq!(State::extract_fs_commands(input, Some("gamma")).len(), 0);
}

#[test]
fn commands_come_in_source_order() {
    let input = "first <fs-command>\n  <operation>write-file</operation>\n  <path>notes.txt</path>\n  <content>one\ntwo</content>\n</fs-command> then \
                 <fs-command>\n  <operation>edit-file</operation>\n  <path>notes.txt</path>\n  <old_text>one</old_text>\n  <new_text>1</new_text>\n</fs-command> done";
    let commands = State::extract_fs_commands(input, None);
    assert_eq!(commands.len(), 2);
    assert_eq!(
        fields(&commands[0]),
        (text("write-file"), text("notes.txt"), Some(text("one\ntwo")), None, None)
    );
    assert_eq!(
        fields(&commands[1]),
        (text("edit-file"), text("notes.txt"), None, Some(text("one")), Some(text("1")))
    );
}

#[test]
fn block_without_operation_or_path_is_dropped_and_siblings_stay() {
    let input = "<fs-command><path>no-operation</path></fs-command>\
                 <fs-command><operation>read-file</operation><path>kept.txt</path></fs-command>\
                 <fs-command><operation>read-file</operation></fs-command>\
                 <fs-command><operation>delete-file</operation><path>also-kept.txt</path></fs-command>";
    let commands = State::extract_fs_commands(input, None);
    assert_eq!(commands.len(), 2);
    assert_eq!(fields(&commands[0]), (text("read-file"), text("kept.txt"), None, None, None));
    assert_eq!(
        fields(&commands[1]),
        (text("delete-file"), text("also-kept.txt"), None, None, None)
    );
}

#[test]
fn block_without_closing_marker_is_dropped() {
    let input = "<fs-command><operation>read-file</operation><path>lost.txt</path>\
                 <fs-command><operation>read-file</operation><path>kept.txt</path></fs-command>";
    let commands = State::extract_fs_commands(input, None);
    assert_eq!(commands.len(), 1);
    assert_eq!(commands[0].path, "kept.txt");
    let open_only = "<fs-command><operation>read-file</operation><path>lost.txt</path>";
    assert_eq!(State::extract_fs_commands(open_only, None).len(), 0);
}

#[test]
fn block_ends_at_the_first_closing_marker() {
    let input = "<fs-command><operation>read-file</operation></fs-command><path>late.txt</path></fs-command>";
    assert_eq!(State::extract_fs_commands(input, None).len(), 0);
}

#[test]
fn repeated_field_uses_the_first_pair() {
    let input = "<fs-command><operation>read-file</operation><path>first.txt</path>\
                 <path>second.txt</path><operation>delete-file</operation></fs-command>";
    let commands = State::extract_fs_commands(input, None);
    assert_eq!(commands.len(), 1);
    assert_eq!(commands[0].operation, "read-file");
    assert_eq!(commands[0].path, "first.txt");
}

#[test]
fn tags_out_of_order_count_as_missing() {
    let required = "<fs-command></operation>read-file<operation><path>a.txt</path></fs-command>";
    assert_eq!(State::extract_fs_commands(required, None).len(), 0);
    let optional = "<fs-command><operation>write-file</operation><path>a.txt</path>\
                    </content>text<content></fs-command>";
    let commands = State::extract_fs_commands(optional, None);
    assert_eq!(commands.len(), 1);
    assert_eq!(commands[0].content, None);
}

#[test]
fn unknown_operation_names_are_kept() {
    let input = "<fs-command><operation>format-disk</operation><path>/</path></fs-command>";
    let commands = State::extract_fs_commands(input, None);
    assert_eq!(commands.len(), 1);
    assert_eq!(commands[0].operation, "format-disk");
}

#[test]
fn fields_keep_their_text_exactly() {
    let input = "<fs-command name=\"caf\u{e9}\"><operation> read-file </operation><path>d\u{e9}j\u{e0} vu/\u{1f4c4}.txt</path>\
                 <content></content><old_text> a <b> </old_text><new_text>\n</new_text></fs-command>";
    let commands = State::extract_fs_commands(input, Some("caf\u{e9}"));
    assert_eq!(commands.len(), 1);
    assert_eq!(
        fields(&commands[0]),
        (
            text(" read-file "),
            text("d\u{e9}j\u{e0} vu/\u{1f4c4}.txt"),
            Some(text("")),
            Some(text(" a <b> ")),
            Some(text("\n"))
        )
    );
}

#[test]
fn text_without_markup_holds_no_commands() {
    assert_eq!(State::extract_fs_commands("", None).len(), 0);
    assert_eq!(State::extract_fs_commands("just chatting", Some("alpha")).len(), 0);
    assert_eq!(State::extract_fs_commands("<fs-command>", None).len(), 0);
}

#[test]
fn extraction_is_repeatable() {
    let input = "<fs-command><operation>create-dir</operation><path>out</path></fs-command>";
    let once = State::extract_fs_commands(input, None);
    let twice = State::extract_fs_commands(input, None);
    assert_eq!(once.len(), twice.len());
    assert_eq!(fields(&once[0]), fields(&twice[0]));
}

#[test]
fn markers_are_bare_or_named() {
    assert_eq!(marker_for(None), "<fs-command>");
    assert_eq!(marker_for(Some("alpha")), "<fs-command name=\"alpha\">");
}

#[test]
fn blocks_between_prose_are_read_as_written() {
    let input = "Please do this: \
                 <fs-command name=\"alpha\"><operation>write-file</operation><path>a > b.txt</path>\
                 <content>x > y</content></fs-command> and then \
                 <fs-command name=\"alpha\"><path>no operation here</path></fs-command> skip that, \
                 <fs-command name=\"alpha\"><operation>edit-file</operation><path>a > b.txt</path>\
                 <old_text>x</old_text><new_text>z</new_text></fs-command> thanks.";
    let commands = State::extract_fs_commands(input, Some("alpha"));
    assert_eq!(commands.len(), 2);
    assert_eq!(
        fields(&commands[0]),
        (text("write-file"), text("a > b.txt"), Some(text("x > y")), None, None)
    );
    assert_eq!(
        fields(&commands[1]),
        (text("edit-file"), text("a > b.txt"), None, Some(text("x")), Some(text("z")))
    );
}

#[test]
fn blocks_laid_out_over_lines_among_blocks_of_others_are_read_one_by_one() {
    let input = "<fs-command name=\"beta\">\n  <operation>delete-file</operation>\n  <path>theirs</path>\n</fs-command>\n\
                 <fs-command name=\"alpha\">\n  <operation>read-file</operation>\n  <path>src/a.rs</path>\n</fs-command>\n\
                 some <b>markup</b> of no concern, </fs-command>\n\
                 <fs-command name=\"alpha\">\n  <operation>list-files</operation>\n</fs-command>\n\
                 <fs-command name=\"alpha\">\n  <operation>write-file</operation>\n  <path>out.txt</path>\n  <content>a < b</content>\n</fs-command>\n";
    let commands = State::extract_fs_commands(input, Some("alpha"));
    assert_eq!(commands.len(), 2);
    assert_eq!(fields(&commands[0]), (text("read-file"), text("src/a.rs"), None, None, None));
    assert_eq!(
        fields(&commands[1]),
        (text("write-file"), text("out.txt"), Some(text("a < b")), None, None)
    );
}
