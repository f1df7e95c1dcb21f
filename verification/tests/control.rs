use mpv_handler::control::{
    ControlCommand, ATTACHED_PAUSE_MS, CONNECT_ATTEMPTS, CONNECT_INTERVAL_MS, OWNED_PAUSE_MS,
};
use serde_json::Value;

fn document(arguments: Vec<Value>) -> String {
    let mut object = serde_json::Map::new();
    object.insert("command".to_string(), Value::Array(arguments));
    let mut line = Value::Object(object).to_string();
    line.push('\n');
    line
}

fn options(title: &str, audio: Option<&str>) -> Value {
    let mut object = serde_json::Map::new();
    object.insert("title".to_string(), Value::from(title));
    if let Some(a) = audio {
        object.insert("audio-file".to_string(), Value::from(a));
    }
    Value::Object(object)
}

#[test]
fn load_replace_on_the_wire() {
    let c = ControlCommand::LoadReplace { url: "https://x/1".to_string(), title: "One".to_string() };
    assert_eq!(
        c.serialize(),
        "{\"command\":[\"loadfile\",\"https://x/1\",\"replace\",{\"title\":\"One\"}]}\n"
    );
}

#[test]
fn load_append_on_the_wire() {
    let c = ControlCommand::LoadAppend {
        url: "https://v/1".to_string(),
        title: "One".to_string(),
        audio_url: None,
    };
    assert_eq!(
        c.serialize(),
        "{\"command\":[\"loadfile\",\"https://v/1\",\"append\",{\"title\":\"One\"}]}\n"
    );
    let c = ControlCommand::LoadAppend {
        url: "https://v/1".to_string(),
        title: "One".to_string(),
        audio_url: Some("https://a/1".to_string()),
    };
    assert_eq!(
        c.serialize(),
        "{\"command\":[\"loadfile\",\"https://v/1\",\"append\",{\"audio-file\":\"https://a/1\",\"title\":\"One\"}]}\n"
    );
}

#[test]
fn set_title_on_the_wire() {
    let c = ControlCommand::SetLastItemTitle { title: "One".to_string() };
    assert_eq!(c.serialize(), "{\"command\":[\"set_property\",\"playlist/-1/title\",\"One\"]}\n");
}

#[test]
fn strings_are_escaped_as_json() {
    let title = "say \"hi\" \\ \n\ttab \u{1} é";
    let c = ControlCommand::SetLastItemTitle { title: title.to_string() };
    let line = c.serialize();
    assert_eq!(
        line,
        "{\"command\":[\"set_property\",\"playlist/-1/title\",\"say \\\"hi\\\" \\\\ \\n\\ttab \\u0001 é\"]}\n"
    );
    assert_eq!(line.matches('\n').count(), 1);
    let back: Value = serde_json::from_str(&line).unwrap();
    assert_eq!(back["command"][2].as_str(), Some(title));
}

#[test]
fn lines_agree_with_serde_json_documents() {
    let url = "https://x/?a=\"b\"";
    let title = "T\\1";
    let audio = "https://a/\u{7f}";
    assert_eq!(
        ControlCommand::LoadReplace { url: url.to_string(), title: title.to_string() }.serialize(),
        document(vec![
            Value::from("loadfile"),
            Value::from(url),
            Value::from("replace"),
            options(title, None)
        ])
    );
    assert_eq!(
        ControlCommand::LoadAppend {
            url: url.to_string(),
            title: title.to_string(),
            audio_url: Some(audio.to_string())
        }
        .serialize(),
        document(vec![
            Value::from("loadfile"),
            Value::from(url),
            Value::from("append"),
            options(title, Some(audio))
        ])
    );
    assert_eq!(
        ControlCommand::LoadAppend { url: url.to_string(), title: title.to_string(), audio_url: None }
            .serialize(),
        document(vec![
            Value::from("loadfile"),
            Value::from(url),
            Value::from("append"),
            options(title, None)
        ])
    );
    assert_eq!(
        ControlCommand::SetLastItemTitle { title: title.to_string() }.serialize(),
        document(vec![
            Value::from("set_property"),
            Value::from("playlist/-1/title"),
            Value::from(title)
        ])
    );
}

#[test]
fn only_load_append_is_an_append() {
    assert!(ControlCommand::LoadAppend { url: String::new(), title: String::new(), audio_url: None }
        .is_append());
    assert!(!ControlCommand::LoadReplace { url: String::new(), title: String::new() }.is_append());
    assert!(!ControlCommand::SetLastItemTitle { title: String::new() }.is_append());
}

#[test]
fn command_clone_is_equal() {
    let c = ControlCommand::LoadAppend {
        url: "u".to_string(),
        title: "t".to_string(),
        audio_url: Some("a".to_string()),
    };
    assert_eq!(c.clone(), c);
}

#[test]
fn connect_policy() {
    assert_eq!(CONNECT_ATTEMPTS, 15);
    assert_eq!(CONNECT_INTERVAL_MS, 200);
    assert_eq!(ATTACHED_PAUSE_MS, 500);
    assert_eq!(OWNED_PAUSE_MS, 50);
}
