use actix_relay::{into_relay_data, tag, RelayData, TaggedData};
use serde::de::{DeserializeOwned, EnumAccess, Error, VariantAccess, Visitor};
use serde::{Deserialize, Deserializer, Serialize, Serializer};
use std::collections::hash_map::DefaultHasher;
use std::fmt;
use std::hash::Hasher;

#[derive(Debug, Clone, PartialEq)]
enum TestMessage {
    Op1,
    Op2,
    Op3,
}

impl Serialize for TestMessage {
    fn serialize<S: Serializer>(&self, serializer: S) -> Result<S::Ok, S::Error> {
        match self {
            TestMessage::Op1 => serializer.serialize_unit_variant("TestMessage", 0, "Op1"),
            TestMessage::Op2 => serializer.serialize_unit_variant("TestMessage", 1, "Op2"),
            TestMessage::Op3 => serializer.serialize_unit_variant("TestMessage", 2, "Op3"),
        }
    }
}

struct TestMessageVisitor;

impl<'de> Visitor<'de> for TestMessageVisitor {
    type Value = TestMessage;

    fn expecting(&self, formatter: &mut fmt::Formatter) -> fmt::Result {
        formatter.write_str("one of Op1, Op2, Op3")
    }

    fn visit_enum<A: EnumAccess<'de>>(self, data: A) -> Result<TestMessage, A::Error> {
        let (index, variant) = data.variant::<u32>()?;
        variant.unit_variant()?;
        match index {
            0 => Ok(TestMessage::Op1),
            1 => Ok(TestMessage::Op2),
            2 => Ok(TestMessage::Op3),
            _ => Err(A::Error::custom("no such operation")),
        }
    }
}

impl<'de> Deserialize<'de> for TestMessage {
    fn deserialize<D: Deserializer<'de>>(deserializer: D) -> Result<TestMessage, D::Error> {
        deserializer.deserialize_enum("TestMessage", &["Op1", "Op2", "Op3"], TestMessageVisitor)
    }
}

struct OtherMessage;

fn relay_data_of<M: Serialize + 'static>(msg: M) -> RelayData {
    into_relay_data(tag::<M>(), bincode::serialize(&msg).unwrap())
}

fn from_byte_slice<M: DeserializeOwned>(bs: &[u8]) -> Option<M> {
    bincode::deserialize::<M>(bs).ok()
}

#[test]
fn relay_message_to_relay_data_and_back() {
    let msg = TestMessage::Op1;

    let relay_data = relay_data_of(msg);

    let tagged_data = TaggedData::from_relay_data(&relay_data).unwrap();

    assert_eq!(tagged_data.tag, tag::<TestMessage>());

    let reconstructed = from_byte_slice::<TestMessage>(&tagged_data.data);

    assert_eq!(reconstructed, Some(TestMessage::Op1));
}

#[test]
fn every_operation_survives_the_round_trip() {
    for msg in [TestMessage::Op1, TestMessage::Op2, TestMessage::Op3] {
        let relay_data = relay_data_of(msg.clone());
        let tagged_data = TaggedData::from_relay_data(&relay_data).unwrap();
        assert_eq!(tagged_data.tag, tag::<TestMessage>());
        assert_eq!(from_byte_slice::<TestMessage>(&tagged_data.data), Some(msg));
    }
}

#[test]
fn operation_payload_is_its_index() {
    let relay_data = relay_data_of(TestMessage::Op3);
    let tagged_data = TaggedData::from_relay_data(&relay_data).unwrap();
    assert_eq!(tagged_data.data, vec![2, 0, 0, 0]);
}

#[test]
fn string_message_survives_the_round_trip() {
    let relay_data = relay_data_of(String::from("hello"));
    let tagged_data = TaggedData::from_relay_data(&relay_data).unwrap();
    assert_eq!(tagged_data.tag, tag::<String>());
    assert_eq!(from_byte_slice::<String>(&tagged_data.data), Some(String::from("hello")));
}

#[test]
fn payload_of_another_type_is_rejected() {
    let relay_data = relay_data_of(String::from("hello"));
    let tagged_data = TaggedData::from_relay_data(&relay_data).unwrap();
    assert_eq!(from_byte_slice::<TestMessage>(&tagged_data.data), None);
}

#[test]
fn tag_is_the_same_on_every_call() {
    let first = tag::<TestMessage>();
    for _ in 0..100 {
        assert_eq!(tag::<TestMessage>(), first);
    }
    assert_eq!(tag::<OtherMessage>(), tag::<OtherMessage>());
    assert_eq!(tag::<String>(), tag::<String>());
}

#[test]
fn tags_of_distinct_types_differ() {
    let tags = [
        ("TestMessage", tag::<TestMessage>()),
        ("OtherMessage", tag::<OtherMessage>()),
        ("String", tag::<String>()),
        ("u64", tag::<u64>()),
        ("Vec<u8>", tag::<Vec<u8>>()),
        ("()", tag::<()>()),
    ];
    for (i, (left_name, left)) in tags.iter().enumerate() {
        for (right_name, right) in tags.iter().skip(i + 1) {
            assert_ne!(left, right, "{} and {} share a tag", left_name, right_name);
        }
    }
}

#[test]
fn tag_feeds_the_type_to_the_hasher() {
    assert_ne!(tag::<TestMessage>(), DefaultHasher::new().finish());
}
