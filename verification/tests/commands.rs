use item_client::command::{dispatch, read_command_line, read_turn, CommandLine, Turn};
use item_client::messages::{
    DeleteItemRequest, GetItemRequest, Kv, PingRequest, Request, SetItemRequest,
};

fn text(s: &str) -> String {
    String::from(s)
}

fn get(key: &str) -> Turn {
    Turn::Call(Request::GetItem(GetItemRequest { key: text(key) }))
}

fn set(key: &str, value: &str) -> Turn {
    Turn::Call(Request::SetItem(SetItemRequest { kv: Kv { key: text(key), value: text(value) } }))
}

fn delete(keys: &[&str]) -> Turn {
    Turn::Call(Request::DeleteItem(DeleteItemRequest {
        keys: keys.iter().map(|k| text(k)).collect(),
    }))
}

fn ping(message: Option<&str>) -> Turn {
    Turn::Call(Request::Ping(PingRequest { message: message.map(text) }))
}

#[test]
fn a_line_is_taken_apart_into_command_and_arguments() {
    assert_eq!(
        read_command_line("set a 1\n"),
        Some(CommandLine { command: text("set"), arguments: vec![text("a"), text("1")] })
    );
    assert_eq!(
        read_command_line("  exit  "),
        Some(CommandLine { command: text("exit"), arguments: vec![] })
    );
    assert_eq!(
        read_command_line("frobnicate the  thing"),
        Some(CommandLine { command: text("frobnicate"), arguments: vec![text("the"), text("thing")] })
    );
}

#[test]
fn a_blank_line_holds_no_command() {
    assert_eq!(read_command_line(""), None);
    assert_eq!(read_command_line("\n"), None);
    assert_eq!(read_command_line("   \t \r\n"), None);
}

#[test]
fn a_blank_line_is_skipped() {
    assert_eq!(read_turn(""), Turn::Skip);
    assert_eq!(read_turn("\n"), Turn::Skip);
    assert_eq!(read_turn("  \t  \n"), Turn::Skip);
}

#[test]
fn get_takes_exactly_one_key() {
    assert_eq!(read_turn("get a\n"), get("a"));
    assert_eq!(read_turn("  get   schlüssel  "), get("schlüssel"));
    assert_eq!(read_turn("get"), Turn::Report(text("usage: get <key>")));
    assert_eq!(read_turn("get a b"), Turn::Report(text("usage: get <key>")));
}

#[test]
fn set_takes_exactly_a_key_and_a_value() {
    assert_eq!(read_turn("set a 1\n"), set("a", "1"));
    assert_eq!(read_turn("set 1 a"), set("1", "a"));
    assert_eq!(read_turn("set"), Turn::Report(text("usage: set <key> <value>")));
    assert_eq!(read_turn("set a"), Turn::Report(text("usage: set <key> <value>")));
    assert_eq!(read_turn("set a 1 2"), Turn::Report(text("usage: set <key> <value>")));
}

#[test]
fn delete_takes_any_number_of_keys() {
    assert_eq!(read_turn("delete"), delete(&[]));
    assert_eq!(read_turn("delete a"), delete(&["a"]));
    assert_eq!(read_turn("delete b a b\n"), delete(&["b", "a", "b"]));
}

#[test]
fn ping_joins_its_arguments_with_single_spaces() {
    assert_eq!(read_turn("ping"), ping(None));
    assert_eq!(read_turn("ping \n"), ping(None));
    assert_eq!(read_turn("ping hello"), ping(Some("hello")));
    assert_eq!(read_turn("ping   hello \t  big   world  \n"), ping(Some("hello big world")));
}

#[test]
fn exit_stops_whatever_follows_it() {
    assert_eq!(read_turn("exit"), Turn::Stop);
    assert_eq!(read_turn("exit\n"), Turn::Stop);
    assert_eq!(read_turn("  exit now please"), Turn::Stop);
}

#[test]
fn an_unknown_command_is_reported_by_name() {
    assert_eq!(read_turn("frobnicate"), Turn::Report(text("unknown command: frobnicate")));
    assert_eq!(read_turn("frobnicate a b\n"), Turn::Report(text("unknown command: frobnicate")));
    assert_eq!(read_turn("post ddd"), Turn::Report(text("unknown command: post")));
    assert_eq!(read_turn("?"), Turn::Report(text("unknown command: ?")));
}

#[test]
fn command_names_are_matched_with_their_case() {
    assert_eq!(read_turn("GET a"), Turn::Report(text("unknown command: GET")));
    assert_eq!(read_turn("Exit"), Turn::Report(text("unknown command: Exit")));
    assert_eq!(read_turn("Ping"), Turn::Report(text("unknown command: Ping")));
    assert_eq!(read_turn("gets a"), Turn::Report(text("unknown command: gets")));
    assert_eq!(read_turn("ge a"), Turn::Report(text("unknown command: ge")));
}

#[test]
fn dispatch_decides_by_the_command_name_alone() {
    let line = CommandLine { command: text("get"), arguments: vec![text("a b")] };
    assert_eq!(dispatch(line), get("a b"));
    let line = CommandLine { command: text("ping"), arguments: vec![text("")] };
    assert_eq!(dispatch(line), ping(Some("")));
    let line = CommandLine { command: text(""), arguments: vec![] };
    assert_eq!(dispatch(line), Turn::Report(text("unknown command: ")));
    let line = CommandLine { command: text("delete"), arguments: vec![text("x"), text("y")] };
    assert_eq!(dispatch(line), delete(&["x", "y"]));
}

/// The turn of a line, decided with the standard library's own splitting.
fn expected_turn(line: &str) -> Turn {
    let trimmed = line.trim();
    if trimmed.is_empty() {
        return Turn::Skip;
    }
    let mut words = trimmed.split_whitespace();
    let command = words.next().unwrap();
    let arguments: Vec<&str> = words.collect();
    match command {
        "get" if arguments.len() == 1 => get(arguments[0]),
        "get" => Turn::Report(text("usage: get <key>")),
        "set" if arguments.len() == 2 => set(arguments[0], arguments[1]),
        "set" => Turn::Report(text("usage: set <key> <value>")),
        "delete" => delete(&arguments),
        "ping" if arguments.is_empty() => ping(None),
        "ping" => ping(Some(&arguments.join(" "))),
        "exit" => Turn::Stop,
        _ => Turn::Report(format!("unknown command: {}", command)),
    }
}

/// A small generator of numbers, the same on every run.
fn next(state: &mut u64) -> u64 {
    *state = state.wrapping_mul(6364136223846793005).wrapping_add(1442695040888963407);
    *state >> 33
}

#[test]
fn many_lines_are_read_as_the_grammar_says() {
    let pieces = [
        "get", "set", "delete", "ping", "exit", "post", "Get", "a", "b", "key", "value", "1", "ö",
        " ", " ", "  ", "\t", "\n", "\u{a0}", "\u{3000}",
    ];
    let mut state = 11;
    for _ in 0..3000 {
        let length = next(&mut state) % 8;
        let mut line = String::new();
        for _ in 0..length {
            line.push_str(pieces[(next(&mut state) % pieces.len() as u64) as usize]);
            if next(&mut state) % 2 == 0 {
                line.push(' ');
            }
        }
        assert_eq!(read_turn(&line), expected_turn(&line), "{:?}", line);
    }
}
