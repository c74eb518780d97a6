use osrs_wiki_prices::endpoints::mapping::{
    catalogue, mapping, mapping_url, MappingError, MappingItem,
};
use osrs_wiki_prices::decode::DecodeError;
use osrs_wiki_prices::types::ItemId;
use serde_json::Value;

const WHIP: &str = r#"{"examine":"A weapon from the abyss.","id":4151,"members":true,"lowalch":48000,"limit":70,"value":120001,"highalch":72000,"icon":"Abyssal whip.png","name":"Abyssal whip"}"#;

fn value(json: &str) -> Value {
    serde_json::from_str(json).unwrap()
}

#[test]
fn alch_values_are_read_from_their_wire_names() {
    let json = r#"{"examine":"e","id":1,"members":false,"lowalch":5,"highalch":10,"icon":"i","name":"n"}"#;
    let item = MappingItem::from_value(&value(json)).unwrap();
    assert_eq!(item.low_alch, Some(5));
    assert_eq!(item.high_alch, Some(10));
    let snake = r#"{"examine":"e","id":1,"members":false,"low_alch":5,"high_alch":10,"icon":"i","name":"n"}"#;
    let item = MappingItem::from_value(&value(snake)).unwrap();
    assert_eq!(item.low_alch, None);
    assert_eq!(item.high_alch, None);
}

#[test]
fn mapping_item_keeps_every_field() {
    let item = MappingItem::from_value(&value(WHIP)).unwrap();
    assert_eq!(item.examine, "A weapon from the abyss.");
    assert_eq!(item.id, ItemId::new(4151));
    assert!(item.members);
    assert_eq!(item.low_alch, Some(48000));
    assert_eq!(item.limit, Some(70));
    assert_eq!(item.value, Some(120001));
    assert_eq!(item.high_alch, Some(72000));
    assert_eq!(item.icon, "Abyssal whip.png");
    assert_eq!(item.name, "Abyssal whip");
}

#[test]
fn mapping_item_takes_its_id_as_text() {
    let json = r#"{"examine":"e","id":"4151","members":false,"icon":"i","name":"n"}"#;
    let item = MappingItem::from_value(&value(json)).unwrap();
    assert_eq!(item.id.id(), 4151);
    assert_eq!(item.limit, None);
    assert_eq!(item.value, None);
}

#[test]
fn mapping_item_wants_its_required_fields() {
    for json in [
        r#"{"id":1,"members":false,"icon":"i","name":"n"}"#,
        r#"{"examine":"e","members":false,"icon":"i","name":"n"}"#,
        r#"{"examine":"e","id":1,"icon":"i","name":"n"}"#,
        r#"{"examine":"e","id":1,"members":false,"name":"n"}"#,
        r#"{"examine":"e","id":1,"members":false,"icon":"i"}"#,
        r#"{"examine":null,"id":1,"members":false,"icon":"i","name":"n"}"#,
        r#"{"examine":"e","id":null,"members":false,"icon":"i","name":"n"}"#,
        r#"{"examine":"e","id":4294967296,"members":false,"icon":"i","name":"n"}"#,
        r#"{"examine":"e","id":"x","members":false,"icon":"i","name":"n"}"#,
        r#"{"examine":"e","id":1,"members":"no","icon":"i","name":"n"}"#,
        r#"{"examine":"e","id":1,"members":0,"icon":"i","name":"n"}"#,
        r#"{"examine":"e","id":1,"members":false,"icon":7,"name":"n"}"#,
        r#"{"examine":"e","id":1,"members":false,"icon":"i","name":["n"]}"#,
        r#"{"examine":"e","id":1,"members":false,"limit":"70","icon":"i","name":"n"}"#,
        r#"{"examine":"e","id":1,"members":false,"value":-1,"icon":"i","name":"n"}"#,
        r#"["e",1,false,null,null,null,null,"i","n"]"#,
        "null",
    ] {
        assert!(MappingItem::from_value(&value(json)).is_none(), "{}", json);
    }
}

#[test]
fn mapping_keeps_the_order_of_the_body() {
    let body = format!(
        r#"[{},{{"examine":"e","id":2,"members":false,"limit":null,"icon":"i","name":"Cannonball"}},{{"examine":"e","id":1,"members":false,"icon":"i","name":"First"}}]"#,
        WHIP
    );
    let items = mapping(body.as_bytes()).unwrap();
    assert_eq!(items.len(), 3);
    assert_eq!(items[0].id.id(), 4151);
    assert_eq!(items[1].id.id(), 2);
    assert_eq!(items[1].name, "Cannonball");
    assert_eq!(items[1].limit, None);
    assert_eq!(items[2].id.id(), 1);
}

#[test]
fn mapping_fails_as_a_whole() {
    assert_eq!(mapping(b"[").unwrap_err(), MappingError::Decode(DecodeError::Syntax));
    assert_eq!(mapping(b"{}").unwrap_err(), MappingError::Decode(DecodeError::Shape));
    assert_eq!(mapping(b"null").unwrap_err(), MappingError::Decode(DecodeError::Shape));
    let body = format!("[{},{{}}]", WHIP);
    assert_eq!(
        mapping(body.as_bytes()).unwrap_err(),
        MappingError::Decode(DecodeError::Shape)
    );
    assert!(mapping(b"[]").unwrap().is_empty());
    assert!(catalogue(&value("[]")).unwrap().is_empty());
    assert!(catalogue(&value("{}")).is_none());
}

#[test]
fn mapping_url_is_under_the_base() {
    assert_eq!(
        mapping_url("https://prices.runescape.wiki/api/v1/dmm"),
        "https://prices.runescape.wiki/api/v1/dmm/mapping"
    );
}
