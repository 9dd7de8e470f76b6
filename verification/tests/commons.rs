use odoo_18_quotations_to_19::utils::search_domains::{
    journal_with_name_and_code, named_account_moves, referring_to, with_text,
};
use odoo_18_quotations_to_19::odoo_api_commons::command::{link_all, Command, CommandPayload};
use odoo_18_quotations_to_19::odoo_api_commons::domain::operators::{EQUALS_TO, NOT_ANY_NOT};
use odoo_18_quotations_to_19::odoo_api_commons::domain::Domain;
use odoo_18_quotations_to_19::odoo_api_commons::maybe_vec::{MaybeVec, OneOrMany};
use odoo_18_quotations_to_19::odoo_api_commons::{value_or_default, BoolOr};

#[test]
fn command_codes() {
    let cmds: Vec<Command<u8>> = vec![
        Command::Create { values: 1 },
        Command::Update { id: 4, value: 2 },
        Command::Delete { id: 5 },
        Command::Unlink { id: 6 },
        Command::Link { id: 7 },
        Command::Clear,
        Command::SetIds { ids: vec![1, 2] },
    ];
    let codes: Vec<u8> = cmds.iter().map(|c| c.code()).collect();
    assert_eq!(codes, vec![0, 1, 2, 3, 4, 5, 6]);
    let ids: Vec<u64> = cmds.iter().map(|c| c.record_id()).collect();
    assert_eq!(ids, vec![0, 4, 5, 6, 7, 0, 0]);
}

#[test]
fn command_payloads() {
    assert!(matches!(Command::Create { values: 9u8 }.payload(), CommandPayload::Values(&9)));
    assert!(matches!(Command::<u8>::Link { id: 1 }.payload(), CommandPayload::Zero));
    assert!(matches!(Command::<u8>::Clear.payload(), CommandPayload::Zero));
    let set = Command::<u8>::SetIds { ids: vec![3, 4] };
    match set.payload() {
        CommandPayload::Ids(ids) => assert_eq!(ids, &vec![3, 4]),
        _ => panic!("expected ids"),
    }
}

#[test]
fn link_all_links_each() {
    let links: Vec<Command<()>> = link_all(&vec![8, 9]);
    assert_eq!(links.len(), 2);
    assert!(matches!(links[0], Command::Link { id: 8 }));
    assert!(matches!(links[1], Command::Link { id: 9 }));
    assert!(link_all::<()>(&vec![]).is_empty());
}

#[test]
fn maybe_vec_into_vec() {
    assert_eq!(MaybeVec(OneOrMany::One(3)).into_vec(), vec![3]);
    assert_eq!(MaybeVec(OneOrMany::Many(vec![1, 2])).into_vec(), vec![1, 2]);
    assert_eq!(MaybeVec::<u8>(OneOrMany::Many(vec![])).into_vec(), Vec::<u8>::new());
}

#[test]
fn false_gives_default() {
    assert_eq!(value_or_default(BoolOr::Bool(false), 0u64), 0);
    assert_eq!(value_or_default(BoolOr::Bool(true), 7u64), 7);
    assert_eq!(value_or_default(BoolOr::Value(5u64), 7), 5);
}

#[test]
fn domain_new() {
    let d = Domain::new("name".into(), EQUALS_TO.into(), serde_json::Value::from("x"));
    assert_eq!(d.0, "name");
    assert_eq!(d.1, "=");
    assert_eq!(d.2, serde_json::Value::from("x"));
    assert_eq!(NOT_ANY_NOT, "not any!");
}

#[test]
fn search_domains() {
    let moves = named_account_moves();
    assert_eq!(moves.len(), 2);
    assert_eq!((moves[0].0.as_str(), moves[0].1.as_str()), ("name", "!="));
    assert_eq!(moves[0].2, serde_json::Value::String("/".into()));
    assert_eq!(moves[1].2, serde_json::Value::Bool(false));
    let lines = referring_to("move_id", 12);
    assert_eq!(lines.len(), 1);
    assert_eq!((lines[0].0.as_str(), lines[0].1.as_str()), ("move_id", "="));
    assert_eq!(lines[0].2, serde_json::Value::from(12u64));
    let named = with_text("code", "101000");
    assert_eq!(named[0].2, serde_json::Value::String("101000".into()));
    let journal = journal_with_name_and_code("Bank", "BNK1");
    assert_eq!(journal.len(), 2);
    assert_eq!(journal[0].0, "name");
    assert_eq!(journal[1].0, "code");
    assert_eq!(journal[1].2, serde_json::Value::String("BNK1".into()));
}
