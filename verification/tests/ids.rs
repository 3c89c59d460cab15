use serde::de::{Deserialize, Deserializer, Error, MapAccess, Visitor};
use serde::ser::{Serialize, SerializeStruct, Serializer};
use serde_test::Token;
use std::fmt::{Formatter, Result as FmtResult};
use twilight_cache_inmemory::model::id::ChannelId;
use twilight_cache_inmemory::model::widget::GuildWidget;

/// The id of a channel, written as text.
#[derive(Debug, PartialEq)]
struct Id(ChannelId);

struct Text<'a>(&'a str);

impl Serialize for Text<'_> {
    fn serialize<S: Serializer>(&self, serializer: S) -> Result<S::Ok, S::Error> {
        serializer.serialize_str(self.0)
    }
}

impl Serialize for Id {
    fn serialize<S: Serializer>(&self, serializer: S) -> Result<S::Ok, S::Error> {
        serializer.serialize_newtype_struct("ChannelId", &Text(&self.0.to_text()))
    }
}

struct IdVisitor;

impl<'de> Visitor<'de> for IdVisitor {
    type Value = Id;

    fn expecting(&self, f: &mut Formatter<'_>) -> FmtResult {
        f.write_str("the id of a channel")
    }

    fn visit_newtype_struct<D: Deserializer<'de>>(self, deserializer: D) -> Result<Id, D::Error> {
        deserializer.deserialize_str(self)
    }

    fn visit_str<E: Error>(self, text: &str) -> Result<Id, E> {
        match ChannelId::from_text(text) {
            Some(id) => Ok(Id(id)),
            None => Err(E::custom("not an id")),
        }
    }
}

impl<'de> Deserialize<'de> for Id {
    fn deserialize<D: Deserializer<'de>>(deserializer: D) -> Result<Id, D::Error> {
        deserializer.deserialize_newtype_struct("ChannelId", IdVisitor)
    }
}

/// A widget, written with its id as text.
#[derive(Debug, PartialEq)]
struct Widget(GuildWidget);

impl Serialize for Widget {
    fn serialize<S: Serializer>(&self, serializer: S) -> Result<S::Ok, S::Error> {
        let mut fields = serializer.serialize_struct("GuildWidget", 2)?;
        fields.serialize_field("channel_id", &Id(self.0.channel_id))?;
        fields.serialize_field("enabled", &self.0.enabled)?;
        fields.end()
    }
}

struct WidgetVisitor;

impl<'de> Visitor<'de> for WidgetVisitor {
    type Value = Widget;

    fn expecting(&self, f: &mut Formatter<'_>) -> FmtResult {
        f.write_str("a widget")
    }

    fn visit_map<A: MapAccess<'de>>(self, mut fields: A) -> Result<Widget, A::Error> {
        let mut channel_id: Option<Id> = None;
        let mut enabled: Option<bool> = None;
        while let Some(name) = fields.next_key::<String>()? {
            if name == "channel_id" {
                channel_id = Some(fields.next_value()?);
            } else {
                enabled = Some(fields.next_value()?);
            }
        }
        match (channel_id, enabled) {
            (Some(Id(channel_id)), Some(enabled)) => {
                Ok(Widget(GuildWidget { channel_id, enabled }))
            }
            _ => Err(A::Error::custom("a field is missing")),
        }
    }
}

impl<'de> Deserialize<'de> for Widget {
    fn deserialize<D: Deserializer<'de>>(deserializer: D) -> Result<Widget, D::Error> {
        deserializer.deserialize_struct("GuildWidget", &["channel_id", "enabled"], WidgetVisitor)
    }
}

#[test]
fn test_guild_widget() {
    let prune = Widget(GuildWidget {
        channel_id: ChannelId(111_111_111_111_111_111),
        enabled: true,
    });

    serde_test::assert_tokens(
        &prune,
        &[
            Token::Struct {
                name: "GuildWidget",
                len: 2,
            },
            Token::Str("channel_id"),
            Token::NewtypeStruct { name: "ChannelId" },
            Token::Str("111111111111111111"),
            Token::Str("enabled"),
            Token::Bool(true),
            Token::StructEnd,
        ],
    );
}

#[test]
fn ids_are_written_in_decimal() {
    assert_eq!(ChannelId(0).to_text(), "0");
    assert_eq!(ChannelId(7).to_text(), "7");
    assert_eq!(ChannelId(10).to_text(), "10");
    assert_eq!(ChannelId(987_654_321_098_765_432).to_text(), "987654321098765432");
    assert_eq!(ChannelId(u64::MAX).to_text(), "18446744073709551615");
}

#[test]
fn ids_are_read_in_decimal() {
    assert_eq!(ChannelId::from_text("0"), Some(ChannelId(0)));
    assert_eq!(ChannelId::from_text("0042"), Some(ChannelId(42)));
    assert_eq!(ChannelId::from_text("+5"), Some(ChannelId(5)));
    assert_eq!(ChannelId::from_text("18446744073709551615"), Some(ChannelId(u64::MAX)));
    assert_eq!(ChannelId::from_text(""), None);
    assert_eq!(ChannelId::from_text("+"), None);
    assert_eq!(ChannelId::from_text("-1"), None);
    assert_eq!(ChannelId::from_text("1 2"), None);
    assert_eq!(ChannelId::from_text("12a"), None);
    assert_eq!(ChannelId::from_text("\u{663}"), None);
    assert_eq!(ChannelId::from_text("18446744073709551616"), None);
    assert_eq!(ChannelId::from_text("99999999999999999999"), None);
}

#[test]
fn an_id_is_read_back_from_its_text() {
    for n in vec![0, 9, 10, 99, 100, 111_111_111_111_111_111, u64::MAX] {
        assert_eq!(ChannelId::from_text(&ChannelId(n).to_text()), Some(ChannelId(n)));
    }
}
