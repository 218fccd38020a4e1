use leptos_ws::channel::{ChannelEntry, Side};
use leptos_ws::error::Error;
use leptos_ws::messages::{
    BiDirectionalMessage, ChannelMessage, Messages, ServerSignalMessage, SignalUpdate,
};
use leptos_ws::signal::{SignalEntry, SignalKind};
use leptos_ws::ws_signals::WsSignals;
use serde_json::Value;

fn signal(name: &str, kind: SignalKind, element: &str, value: Value) -> SignalEntry {
    SignalEntry::new(name.to_owned(), kind, element.to_owned(), value)
}

fn establish(name: &str) -> Messages {
    Messages::ServerSignal(ServerSignalMessage::Establish(name.to_owned()))
}

fn shown(frames: &[Messages]) -> Vec<String> {
    frames.iter().map(|frame| format!("{:?}", frame)).collect()
}

#[test]
fn new_registry_is_empty() {
    let registry = WsSignals::new(Side::Server);
    assert_eq!(registry.side(), Side::Server);
    assert!(!registry.contains("x"));
    assert!(registry.get_signal("x", "i32").is_none());
    assert!(registry.get_channel("x", "i32").is_none());
    assert!(registry.json("x").is_none());
    assert!(registry.reconnect().is_empty());
}

#[test]
fn server_creates_without_a_frame() {
    let mut registry = WsSignals::new(Side::Server);
    let (handle, frame) = registry
        .create_signal(
            "x",
            signal("x", SignalKind::ReadOnly, "i32", Value::from(1)),
            establish("x"),
        )
        .unwrap();
    assert!(frame.is_none());
    assert_eq!(handle.json().unwrap(), Value::from(1));
    assert!(registry.contains("x"));
    assert_eq!(registry.json("x").unwrap().unwrap(), Value::from(1));
}

#[test]
fn client_creates_with_the_frame_that_announces_the_signal() {
    let mut registry = WsSignals::new(Side::Client);
    let (_, frame) = registry
        .create_signal(
            "x",
            signal("x", SignalKind::ReadOnly, "i32", Value::from(1)),
            establish("x"),
        )
        .unwrap();
    assert_eq!(format!("{:?}", frame.unwrap()), format!("{:?}", establish("x")));
}

#[test]
fn creating_twice_yields_the_same_entry() {
    let mut registry = WsSignals::new(Side::Client);
    let (first, _) = registry
        .create_signal(
            "x",
            signal("x", SignalKind::ReadOnly, "i32", Value::from(1)),
            establish("x"),
        )
        .unwrap();
    let (second, frame) = registry
        .create_signal(
            "x",
            signal("x", SignalKind::ReadOnly, "i32", Value::from(99)),
            establish("x"),
        )
        .unwrap();
    assert!(frame.is_none());
    assert_eq!(format!("{:?}", first), format!("{:?}", second));
    assert_eq!(second.json().unwrap(), Value::from(1));
    assert_eq!(registry.json("x").unwrap().unwrap(), Value::from(1));
    assert_eq!(registry.reconnect().len(), 1);
}

#[test]
fn creating_under_a_name_of_another_type_fails() {
    let mut registry = WsSignals::new(Side::Server);
    registry
        .create_signal(
            "x",
            signal("x", SignalKind::ReadOnly, "i32", Value::from(1)),
            establish("x"),
        )
        .unwrap();
    let other_element = registry.create_signal(
        "x",
        signal("x", SignalKind::ReadOnly, "String", Value::from("a")),
        establish("x"),
    );
    assert!(matches!(other_element, Err(Error::AddingSignalFailed)));
    let other_kind = registry.create_signal(
        "x",
        signal("x", SignalKind::BiDirectional, "i32", Value::from(1)),
        establish("x"),
    );
    assert!(matches!(other_kind, Err(Error::AddingSignalFailed)));
    let as_channel = registry.create_channel(
        "x",
        ChannelEntry::new("x".to_owned(), "i32".to_owned(), Side::Server),
        Messages::Channel(ChannelMessage::Establish("x".to_owned())),
    );
    assert!(matches!(as_channel, Err(Error::AddingSignalFailed)));
    assert_eq!(registry.json("x").unwrap().unwrap(), Value::from(1));
}

#[test]
fn channels_are_created_found_and_told_apart_from_signals() {
    let mut registry = WsSignals::new(Side::Server);
    let (_, frame) = registry
        .create_channel(
            "echo",
            ChannelEntry::new("echo".to_owned(), "String".to_owned(), Side::Server),
            Messages::Channel(ChannelMessage::Establish("echo".to_owned())),
        )
        .unwrap();
    assert!(frame.is_none());
    assert!(!registry.contains("echo"));
    assert!(registry.get_channel("echo", "String").is_some());
    assert!(registry.get_channel("echo", "u8").is_none());
    assert!(registry.get_signal("echo", "String").is_none());
    assert!(registry.add_observer_channel("echo"));
    assert!(!registry.add_observer("echo"));
    assert!(registry.json("echo").is_none());
    let again = registry.create_channel(
        "echo",
        ChannelEntry::new("echo".to_owned(), "String".to_owned(), Side::Server),
        Messages::Channel(ChannelMessage::Establish("echo".to_owned())),
    );
    assert!(again.is_ok());
    let other = registry.create_channel(
        "echo",
        ChannelEntry::new("echo".to_owned(), "u8".to_owned(), Side::Server),
        Messages::Channel(ChannelMessage::Establish("echo".to_owned())),
    );
    assert!(matches!(other, Err(Error::AddingSignalFailed)));
    let as_signal = registry.create_signal(
        "echo",
        signal("echo", SignalKind::ReadOnly, "String", Value::from("a")),
        establish("echo"),
    );
    assert!(matches!(as_signal, Err(Error::AddingSignalFailed)));
}

#[test]
fn update_goes_to_the_named_signal_only() {
    let mut registry = WsSignals::new(Side::Server);
    for name in ["a", "b"] {
        registry
            .create_signal(
                name,
                signal(name, SignalKind::BiDirectional, "i32", Value::from(0)),
                establish(name),
            )
            .unwrap();
    }
    let update = SignalUpdate::new_from_json("a".to_owned(), &Value::from(0), &Value::from(5));
    let applied = registry
        .update("a", update, Some("abc".to_owned()))
        .unwrap()
        .unwrap();
    assert_eq!(applied.reseed, Some(Value::from(5)));
    assert_eq!(applied.event.origin.as_deref(), Some("abc"));
    assert!(matches!(
        applied.event.message,
        Messages::BiDirectional(BiDirectionalMessage::Update(_))
    ));
    assert_eq!(registry.json("a").unwrap().unwrap(), Value::from(5));
    assert_eq!(registry.json("b").unwrap().unwrap(), Value::from(0));
}

#[test]
fn update_of_an_unknown_name_is_none_and_a_bad_patch_is_an_error() {
    let mut registry = WsSignals::new(Side::Server);
    registry
        .create_signal(
            "a",
            signal("a", SignalKind::BiDirectional, "Doc", serde_json::from_str("{}").unwrap()),
            establish("a"),
        )
        .unwrap();
    let update = SignalUpdate::new_from_json("zz".to_owned(), &Value::from(0), &Value::from(5));
    assert!(registry.update("zz", update, None).is_none());
    let bad: json_patch::Patch =
        serde_json::from_str("[{\"op\":\"remove\",\"path\":\"/nothing\"}]").unwrap();
    let res = registry.update("a", SignalUpdate::new_from_patch("a".to_owned(), &bad), None);
    assert!(matches!(res, Some(Err(Error::UpdateSignalFailed))));
    let empty: Value = serde_json::from_str("{}").unwrap();
    assert_eq!(registry.json("a").unwrap().unwrap(), empty);
    assert_eq!(registry.reconnect().len(), 1);
}

#[test]
fn set_json_seeds_the_named_signal() {
    let mut registry = WsSignals::new(Side::Client);
    registry
        .create_signal(
            "a",
            signal("a", SignalKind::ReadOnly, "i32", Value::from(0)),
            establish("a"),
        )
        .unwrap();
    let seed = registry.set_json("a", Value::from(42)).unwrap().unwrap();
    assert_eq!(seed.reseed, Value::from(42));
    assert_eq!(seed.previous, Value::from(0));
    assert_eq!(registry.json("a").unwrap().unwrap(), Value::from(42));
    assert!(registry.settle_seed("a", seed, Ok(())).unwrap().is_ok());
    assert_eq!(registry.json("a").unwrap().unwrap(), Value::from(42));
    let seed = registry.set_json("a", Value::from("x")).unwrap().unwrap();
    let res = registry.settle_seed("a", seed, Err("expected i32".to_owned()));
    assert!(matches!(res, Some(Err(Error::SerializationFailed(_)))));
    assert_eq!(registry.json("a").unwrap().unwrap(), Value::from(42));
    assert!(registry.set_json("zz", Value::from(1)).is_none());
}

#[test]
fn delete_removes_what_it_names_and_nothing_else() {
    let mut registry = WsSignals::new(Side::Server);
    for name in ["a", "b", "c"] {
        registry
            .create_signal(
                name,
                signal(name, SignalKind::ReadOnly, "i32", Value::from(0)),
                establish(name),
            )
            .unwrap();
    }
    registry
        .create_channel(
            "echo",
            ChannelEntry::new("echo".to_owned(), "String".to_owned(), Side::Server),
            Messages::Channel(ChannelMessage::Establish("echo".to_owned())),
        )
        .unwrap();
    assert!(matches!(registry.delete_signal("zz"), Err(Error::DeletingSignalFailed)));
    assert!(matches!(registry.delete_signal("echo"), Err(Error::DeletingSignalFailed)));
    assert!(matches!(
        registry.delete_channel("a"),
        Err(Error::DeletingChannelHandlerFailed)
    ));
    assert!(matches!(
        registry.delete_channel("zz"),
        Err(Error::DeletingChannelHandlerFailed)
    ));
    assert!(!registry.contains("echo"));
    assert!(registry.delete_signal("b").is_ok());
    assert!(!registry.contains("b"));
    assert!(registry.json("b").is_none());
    assert!(registry.contains("a") && registry.contains("c"));
    assert!(registry.get_channel("echo", "String").is_some());
    assert!(matches!(registry.delete_signal("b"), Err(Error::DeletingSignalFailed)));
    assert!(registry.delete_channel("echo").is_ok());
    assert!(registry.get_channel("echo", "String").is_none());
    assert_eq!(
        shown(&registry.reconnect()),
        shown(&[establish("a"), establish("c")])
    );
}

#[test]
fn reconnect_asks_for_everything_in_the_order_of_registration() {
    let mut registry = WsSignals::new(Side::Client);
    registry
        .create_signal(
            "a",
            signal("a", SignalKind::ReadOnly, "i32", Value::from(0)),
            establish("a"),
        )
        .unwrap();
    registry
        .create_signal(
            "b",
            signal("b", SignalKind::BiDirectional, "i32", Value::from(0)),
            Messages::BiDirectional(BiDirectionalMessage::Establish("b".to_owned())),
        )
        .unwrap();
    registry
        .create_channel(
            "c",
            ChannelEntry::new("c".to_owned(), "String".to_owned(), Side::Client),
            Messages::Channel(ChannelMessage::Establish("c".to_owned())),
        )
        .unwrap();
    registry.set_json("a", Value::from(9)).unwrap().unwrap();
    let frames = registry.reconnect();
    assert_eq!(
        shown(&frames),
        shown(&[
            establish("a"),
            Messages::BiDirectional(BiDirectionalMessage::Establish("b".to_owned())),
            Messages::Channel(ChannelMessage::Establish("c".to_owned())),
        ])
    );
    assert_eq!(registry.json("a").unwrap().unwrap(), Value::from(9));
    assert_eq!(registry.reconnect().len(), 3);
}

#[test]
fn channel_messages_reach_a_registered_handler_only() {
    let mut registry = WsSignals::new(Side::Server);
    let mut channel = ChannelEntry::new("echo".to_owned(), "String".to_owned(), Side::Server);
    assert!(!channel.on_client().unwrap());
    assert!(channel.handle_message(Value::from("hi")).unwrap().is_none());
    assert!(channel.on_server().unwrap());
    registry
        .create_channel(
            "echo",
            channel,
            Messages::Channel(ChannelMessage::Establish("echo".to_owned())),
        )
        .unwrap();
    let delivered = registry.handle_message("echo", Value::from("hi")).unwrap().unwrap();
    assert_eq!(delivered, Some(Value::from("hi")));
    assert!(registry.handle_message("zz", Value::from("hi")).is_none());
}

#[test]
fn channel_entry_knows_its_side() {
    let mut client = ChannelEntry::new("echo".to_owned(), "String".to_owned(), Side::Client);
    assert_eq!(client.name(), "echo");
    assert_eq!(client.element(), "String");
    assert_eq!(client.side(), Side::Client);
    assert!(!client.on_server().unwrap());
    assert!(client.handle_message(Value::from(1)).unwrap().is_none());
    assert!(client.on_client().unwrap());
    assert_eq!(client.handle_message(Value::from(1)).unwrap(), Some(Value::from(1)));
    assert!(matches!(client.delete(), Err(Error::NotAvailableOnClient)));
    let server = ChannelEntry::new("echo".to_owned(), "String".to_owned(), Side::Server);
    assert!(server.delete().is_ok());
    let event = client.duplicate().send_message(Value::from("hi"));
    assert!(event.origin.is_none());
    assert_eq!(
        format!("{:?}", event.message),
        format!(
            "{:?}",
            Messages::Channel(ChannelMessage::Message("echo".to_owned(), Value::from("hi")))
        )
    );
}

#[test]
fn handlers_are_registered_through_the_registry() {
    let mut registry = WsSignals::new(Side::Server);
    registry
        .create_channel(
            "echo",
            ChannelEntry::new("echo".to_owned(), "String".to_owned(), Side::Server),
            Messages::Channel(ChannelMessage::Establish("echo".to_owned())),
        )
        .unwrap();
    registry
        .create_signal(
            "a",
            signal("a", SignalKind::ReadOnly, "i32", Value::from(0)),
            establish("a"),
        )
        .unwrap();
    assert!(registry.on_server("zz").is_none());
    assert!(registry.on_server("a").is_none());
    assert!(!registry.on_client("echo").unwrap().unwrap());
    assert!(registry
        .handle_message("echo", Value::from("hi"))
        .unwrap()
        .unwrap()
        .is_none());
    assert!(registry.on_server("echo").unwrap().unwrap());
    assert_eq!(
        registry.handle_message("echo", Value::from("hi")).unwrap().unwrap(),
        Some(Value::from("hi"))
    );
    assert_eq!(
        shown(&registry.reconnect()),
        shown(&[
            Messages::Channel(ChannelMessage::Establish("echo".to_owned())),
            establish("a"),
        ])
    );
}

#[test]
fn local_write_through_the_registry() {
    let mut registry = WsSignals::new(Side::Server);
    registry
        .create_signal(
            "a",
            signal("a", SignalKind::ReadOnly, "i32", Value::from(0)),
            establish("a"),
        )
        .unwrap();
    assert!(registry.try_maybe_update("a", false, &Value::from(1)).is_none());
    assert_eq!(registry.json("a").unwrap().unwrap(), Value::from(0));
    assert!(registry.try_maybe_update("a", true, &Value::from(0)).is_none());
    assert!(registry.try_maybe_update("zz", true, &Value::from(1)).is_none());
    let event = registry.try_maybe_update("a", true, &Value::from(1)).unwrap();
    assert!(event.origin.is_none());
    match event.message {
        Messages::ServerSignal(ServerSignalMessage::Update(update)) => {
            assert_eq!(update.get_name(), "a");
            let mut replay = Value::from(0);
            json_patch::patch(&mut replay, update.get_patch()).unwrap();
            assert_eq!(replay, Value::from(1));
        }
        other => panic!("unexpected frame {:?}", other),
    }
    assert_eq!(registry.json("a").unwrap().unwrap(), Value::from(1));
}

#[test]
fn lookup_is_by_name_and_element_type() {
    let mut registry = WsSignals::new(Side::Server);
    registry
        .create_signal(
            "a",
            signal("a", SignalKind::ReadOnly, "i32", Value::from(3)),
            establish("a"),
        )
        .unwrap();
    let found = registry.get_signal("a", "i32").unwrap();
    assert_eq!(found.json().unwrap(), Value::from(3));
    assert!(registry.get_signal("a", "String").is_none());
    assert!(registry.get_signal("a", "").is_none());
    assert!(registry.get_signal("b", "i32").is_none());
    assert!(registry.get_channel("a", "i32").is_none());
    assert!(registry.contains("a"));
    assert_eq!(registry.json("a").unwrap().unwrap(), Value::from(3));
}

#[test]
fn an_entry_is_registered_under_its_own_name_only() {
    let mut registry = WsSignals::new(Side::Server);
    let misnamed = registry.create_signal(
        "a",
        signal("b", SignalKind::ReadOnly, "i32", Value::from(0)),
        establish("a"),
    );
    assert!(matches!(misnamed, Err(Error::AddingSignalFailed)));
    assert!(!registry.contains("a") && !registry.contains("b"));
    let misnamed = registry.create_channel(
        "a",
        ChannelEntry::new("b".to_owned(), "String".to_owned(), Side::Server),
        Messages::Channel(ChannelMessage::Establish("a".to_owned())),
    );
    assert!(matches!(misnamed, Err(Error::AddingSignalFailed)));
    assert!(registry.get_channel("a", "String").is_none());
    assert!(registry.reconnect().is_empty());
}

#[test]
fn a_change_that_the_cell_refuses_is_taken_back() {
    let mut registry = WsSignals::new(Side::Server);
    registry
        .create_signal(
            "n",
            signal("n", SignalKind::BiDirectional, "i32", Value::from(1)),
            establish("n"),
        )
        .unwrap();
    let update = SignalUpdate::new_from_json("n".to_owned(), &Value::from(1), &Value::from("x"));
    let applied = registry
        .update_bidirectional("n", update, Some("abc".to_owned()))
        .unwrap()
        .unwrap();
    assert_eq!(applied.reseed, Some(Value::from("x")));
    assert_eq!(applied.previous, Value::from(1));
    assert_eq!(registry.json("n").unwrap().unwrap(), Value::from("x"));
    let res = registry
        .settle("n", applied, Err("invalid type: string".to_owned()))
        .unwrap();
    match res {
        Err(Error::SerializationFailed(text)) => assert_eq!(text, "invalid type: string"),
        other => panic!("unexpected result {:?}", other),
    }
    assert_eq!(registry.json("n").unwrap().unwrap(), Value::from(1));

    let update = SignalUpdate::new_from_json("n".to_owned(), &Value::from(1), &Value::from(2));
    let applied = registry
        .update_bidirectional("n", update, Some("abc".to_owned()))
        .unwrap()
        .unwrap();
    let event = registry.settle("n", applied, Ok(())).unwrap().unwrap();
    assert_eq!(event.origin.as_deref(), Some("abc"));
    assert_eq!(registry.json("n").unwrap().unwrap(), Value::from(2));
    let late = SignalUpdate::new_from_json("n".to_owned(), &Value::from(2), &Value::from(3));
    let applied = registry.update("n", late, None).unwrap().unwrap();
    registry.delete_signal("n").unwrap();
    assert!(registry.settle("n", applied, Ok(())).is_none());
}

#[test]
fn a_client_update_does_not_reach_a_signal_of_the_server() {
    let mut registry = WsSignals::new(Side::Server);
    registry
        .create_signal(
            "count",
            signal("count", SignalKind::ReadOnly, "i32", Value::from(0)),
            establish("count"),
        )
        .unwrap();
    let update = SignalUpdate::new_from_json("count".to_owned(), &Value::from(0), &Value::from(9));
    let res = registry.update_bidirectional("count", update.duplicate(), Some("abc".to_owned()));
    assert!(matches!(res, Some(Err(Error::NotAvailableOnSignal))));
    assert_eq!(registry.json("count").unwrap().unwrap(), Value::from(0));
    assert!(registry
        .update_bidirectional("zz", update.duplicate(), None)
        .is_none());
    assert!(registry.update("count", update, None).unwrap().is_ok());
    assert_eq!(registry.json("count").unwrap().unwrap(), Value::from(9));
}

#[test]
fn a_client_does_not_write_a_signal_of_the_server() {
    let mut client = WsSignals::new(Side::Client);
    client
        .create_signal(
            "count",
            signal("count", SignalKind::ReadOnly, "i32", Value::from(0)),
            establish("count"),
        )
        .unwrap();
    client
        .create_signal(
            "n",
            signal("n", SignalKind::BiDirectional, "i32", Value::from(0)),
            establish("n"),
        )
        .unwrap();
    assert!(!client.writable("count"));
    assert!(client.writable("n"));
    assert!(!client.writable("zz"));
    assert!(client.try_maybe_update("count", true, &Value::from(5)).is_none());
    assert_eq!(client.json("count").unwrap().unwrap(), Value::from(0));
    assert!(client.try_maybe_update("n", true, &Value::from(5)).is_some());
    let mut server = WsSignals::new(Side::Server);
    server
        .create_signal(
            "count",
            signal("count", SignalKind::ReadOnly, "i32", Value::from(0)),
            establish("count"),
        )
        .unwrap();
    assert!(server.writable("count"));
    assert!(server.try_maybe_update("count", true, &Value::from(5)).is_some());
}
