use std::collections::BTreeMap;
use std::fmt;

use serde::ser::{self, Serialize, SerializeStruct, SerializeStructVariant, SerializeTupleVariant};
use serde_annotate::annotate::{Annotate, Format, MemberId};
use serde_annotate::document::{CommentFormat, Document, StrFormat};
use serde_annotate::error::Error;
use serde_annotate::integer::{Base, Int};
use serde_annotate::ser::{self as engine, AnnotatedSerializer};

/// The library's error, as serde wants to see it.
#[derive(Debug)]
struct Failure(Error);

impl fmt::Display for Failure {
    fn fmt(&self, f: &mut fmt::Formatter<'_>) -> fmt::Result {
        f.write_str(&self.0.message())
    }
}

impl std::error::Error for Failure {}

impl ser::Error for Failure {
    fn custom<T: fmt::Display>(msg: T) -> Self {
        Failure(Error::custom(&msg.to_string()))
    }
}

impl From<Error> for Failure {
    fn from(e: Error) -> Self {
        Failure(e)
    }
}

/// A serde serializer in front of the library: every call is handed on, and
/// every nested value is handed over as a function of the context.
struct Front<'a> {
    context: AnnotatedSerializer,
    annotator: Option<&'a dyn Annotate>,
}

fn build<T: ?Sized + Serialize>(
    context: AnnotatedSerializer,
    annotator: Option<&dyn Annotate>,
    value: &T,
) -> Result<Document, Error> {
    let mut child = Front { context, annotator };
    value.serialize(&mut child).map_err(|e| e.0)
}

struct FrontSeq<'a>(engine::SerializeSeq, Option<&'a dyn Annotate>);
struct FrontTuple<'a>(engine::SerializeTuple, Option<&'a dyn Annotate>);
struct FrontTupleStruct<'a>(engine::SerializeTupleStruct, Option<&'a dyn Annotate>);
struct FrontTupleVariant<'a>(engine::SerializeTupleVariant<'static>, Option<&'a dyn Annotate>);
struct FrontMap<'a>(engine::SerializeMap, Option<&'a dyn Annotate>);
struct FrontStruct<'a>(engine::SerializeStruct, Option<&'a dyn Annotate>);
struct FrontStructVariant<'a>(engine::SerializeStructVariant<'static>, Option<&'a dyn Annotate>);

impl<'s, 'a> ser::Serializer for &'s mut Front<'a> {
    type Ok = Document;
    type Error = Failure;
    type SerializeSeq = FrontSeq<'a>;
    type SerializeTuple = FrontTuple<'a>;
    type SerializeTupleStruct = FrontTupleStruct<'a>;
    type SerializeTupleVariant = FrontTupleVariant<'a>;
    type SerializeMap = FrontMap<'a>;
    type SerializeStruct = FrontStruct<'a>;
    type SerializeStructVariant = FrontStructVariant<'a>;

    fn serialize_bool(self, v: bool) -> Result<Document, Failure> {
        Ok(self.context.serialize_bool(v))
    }
    fn serialize_i8(self, v: i8) -> Result<Document, Failure> {
        Ok(self.context.serialize_i8(v))
    }
    fn serialize_i16(self, v: i16) -> Result<Document, Failure> {
        Ok(self.context.serialize_i16(v))
    }
    fn serialize_i32(self, v: i32) -> Result<Document, Failure> {
        Ok(self.context.serialize_i32(v))
    }
    fn serialize_i64(self, v: i64) -> Result<Document, Failure> {
        Ok(self.context.serialize_i64(v))
    }
    fn serialize_i128(self, v: i128) -> Result<Document, Failure> {
        Ok(self.context.serialize_i128(v))
    }
    fn serialize_u8(self, v: u8) -> Result<Document, Failure> {
        Ok(self.context.serialize_u8(v))
    }
    fn serialize_u16(self, v: u16) -> Result<Document, Failure> {
        Ok(self.context.serialize_u16(v))
    }
    fn serialize_u32(self, v: u32) -> Result<Document, Failure> {
        Ok(self.context.serialize_u32(v))
    }
    fn serialize_u64(self, v: u64) -> Result<Document, Failure> {
        Ok(self.context.serialize_u64(v))
    }
    fn serialize_u128(self, v: u128) -> Result<Document, Failure> {
        Ok(self.context.serialize_u128(v))
    }
    fn serialize_f32(self, v: f32) -> Result<Document, Failure> {
        Ok(self.context.serialize_f64((v as f64).to_bits()))
    }
    fn serialize_f64(self, v: f64) -> Result<Document, Failure> {
        Ok(self.context.serialize_f64(v.to_bits()))
    }
    fn serialize_char(self, v: char) -> Result<Document, Failure> {
        Ok(self.context.serialize_char(v))
    }
    fn serialize_str(self, v: &str) -> Result<Document, Failure> {
        Ok(self.context.serialize_str(v))
    }
    fn serialize_bytes(self, v: &[u8]) -> Result<Document, Failure> {
        Ok(self.context.serialize_bytes(v))
    }
    fn serialize_none(self) -> Result<Document, Failure> {
        Ok(self.context.serialize_none())
    }
    fn serialize_some<T: ?Sized + Serialize>(self, value: &T) -> Result<Document, Failure> {
        let annotator = self.annotator;
        Ok(self
            .context
            .serialize_some(|context| build(context, annotator, value))?)
    }
    fn serialize_unit(self) -> Result<Document, Failure> {
        Ok(self.context.serialize_unit())
    }
    fn serialize_unit_struct(self, name: &'static str) -> Result<Document, Failure> {
        Ok(self.context.serialize_unit_struct(name))
    }
    fn serialize_unit_variant(
        self,
        name: &'static str,
        index: u32,
        variant: &'static str,
    ) -> Result<Document, Failure> {
        Ok(self.context.serialize_unit_variant(name, index, variant))
    }
    fn serialize_newtype_struct<T: ?Sized + Serialize>(
        self,
        name: &'static str,
        value: &T,
    ) -> Result<Document, Failure> {
        Ok(self
            .context
            .serialize_newtype_struct(self.annotator, name, |child| build(child, None, value))?)
    }
    fn serialize_newtype_variant<T: ?Sized + Serialize>(
        self,
        name: &'static str,
        index: u32,
        variant: &'static str,
        value: &T,
    ) -> Result<Document, Failure> {
        Ok(self.context.serialize_newtype_variant(
            self.annotator,
            name,
            index,
            variant,
            |child| build(child, None, value),
        )?)
    }
    fn serialize_seq(self, len: Option<usize>) -> Result<FrontSeq<'a>, Failure> {
        Ok(FrontSeq(self.context.serialize_seq(len)?, self.annotator))
    }
    fn serialize_tuple(self, len: usize) -> Result<FrontTuple<'a>, Failure> {
        Ok(FrontTuple(self.context.serialize_tuple(len)?, self.annotator))
    }
    fn serialize_tuple_struct(
        self,
        name: &'static str,
        len: usize,
    ) -> Result<FrontTupleStruct<'a>, Failure> {
        Ok(FrontTupleStruct(
            self.context.serialize_tuple_struct(name, len)?,
            self.annotator,
        ))
    }
    fn serialize_tuple_variant(
        self,
        name: &'static str,
        index: u32,
        variant: &'static str,
        len: usize,
    ) -> Result<FrontTupleVariant<'a>, Failure> {
        Ok(FrontTupleVariant(
            self.context
                .serialize_tuple_variant(name, index, variant, len)?,
            self.annotator,
        ))
    }
    fn serialize_map(self, len: Option<usize>) -> Result<FrontMap<'a>, Failure> {
        Ok(FrontMap(self.context.serialize_map(len)?, self.annotator))
    }
    fn serialize_struct(
        self,
        name: &'static str,
        len: usize,
    ) -> Result<FrontStruct<'a>, Failure> {
        Ok(FrontStruct(
            self.context.serialize_struct(name, len)?,
            self.annotator,
        ))
    }
    fn serialize_struct_variant(
        self,
        name: &'static str,
        index: u32,
        variant: &'static str,
        len: usize,
    ) -> Result<FrontStructVariant<'a>, Failure> {
        Ok(FrontStructVariant(
            self.context
                .serialize_struct_variant(name, index, variant, len)?,
            self.annotator,
        ))
    }
}

impl ser::SerializeSeq for FrontSeq<'_> {
    type Ok = Document;
    type Error = Failure;
    fn serialize_element<T: ?Sized + Serialize>(&mut self, value: &T) -> Result<(), Failure> {
        let annotator = self.1;
        Ok(self
            .0
            .serialize_element(|context| build(context, annotator, value))?)
    }
    fn end(self) -> Result<Document, Failure> {
        Ok(self.0.end()?)
    }
}

impl ser::SerializeTuple for FrontTuple<'_> {
    type Ok = Document;
    type Error = Failure;
    fn serialize_element<T: ?Sized + Serialize>(&mut self, value: &T) -> Result<(), Failure> {
        let annotator = self.1;
        Ok(self
            .0
            .serialize_element(|context| build(context, annotator, value))?)
    }
    fn end(self) -> Result<Document, Failure> {
        Ok(self.0.end()?)
    }
}

impl ser::SerializeTupleStruct for FrontTupleStruct<'_> {
    type Ok = Document;
    type Error = Failure;
    fn serialize_field<T: ?Sized + Serialize>(&mut self, value: &T) -> Result<(), Failure> {
        assert!(self.0.index() < u32::MAX);
        Ok(self
            .0
            .serialize_field(self.1, |child| build(child, None, value))?)
    }
    fn end(self) -> Result<Document, Failure> {
        Ok(self.0.end()?)
    }
}

impl ser::SerializeTupleVariant for FrontTupleVariant<'_> {
    type Ok = Document;
    type Error = Failure;
    fn serialize_field<T: ?Sized + Serialize>(&mut self, value: &T) -> Result<(), Failure> {
        assert!(self.0.index() < u32::MAX);
        Ok(self
            .0
            .serialize_field(self.1, |child| build(child, None, value))?)
    }
    fn end(self) -> Result<Document, Failure> {
        Ok(self.0.end(self.1)?)
    }
}

impl ser::SerializeMap for FrontMap<'_> {
    type Ok = Document;
    type Error = Failure;
    fn serialize_key<T: ?Sized + Serialize>(&mut self, key: &T) -> Result<(), Failure> {
        assert!(!self.0.has_key());
        let annotator = self.1;
        Ok(self.0.serialize_key(|context| build(context, annotator, key))?)
    }
    fn serialize_value<T: ?Sized + Serialize>(&mut self, value: &T) -> Result<(), Failure> {
        assert!(self.0.has_key());
        let annotator = self.1;
        Ok(self
            .0
            .serialize_value(|context| build(context, annotator, value))?)
    }
    fn end(self) -> Result<Document, Failure> {
        Ok(self.0.end()?)
    }
}

impl ser::SerializeStruct for FrontStruct<'_> {
    type Ok = Document;
    type Error = Failure;
    fn serialize_field<T: ?Sized + Serialize>(
        &mut self,
        key: &'static str,
        value: &T,
    ) -> Result<(), Failure> {
        Ok(self
            .0
            .serialize_field(self.1, key, |child| build(child, None, value))?)
    }
    fn end(self) -> Result<Document, Failure> {
        Ok(self.0.end()?)
    }
}

impl ser::SerializeStructVariant for FrontStructVariant<'_> {
    type Ok = Document;
    type Error = Failure;
    fn serialize_field<T: ?Sized + Serialize>(
        &mut self,
        key: &'static str,
        value: &T,
    ) -> Result<(), Failure> {
        Ok(self
            .0
            .serialize_field(self.1, key, |child| build(child, None, value))?)
    }
    fn end(self) -> Result<Document, Failure> {
        Ok(self.0.end(self.1)?)
    }
}

/// Serializes a value that declares nothing.
fn plain<T: ?Sized + Serialize>(value: &T) -> Result<Document, Error> {
    engine::serialize(|context| build(context, None, value))
}

/// Serializes a value with its hook.
fn annotated<T: Serialize + Annotate>(value: &T) -> Result<Document, Error> {
    engine::serialize(|context| build(context, Some(value), value))
}

fn text(s: &str) -> Document {
    Document::String(s.to_string(), StrFormat::Standard)
}

fn note(s: &str) -> Document {
    Document::Comment(s.to_string(), CommentFormat::Standard)
}

fn num(v: i128, base: Base) -> Document {
    Document::Int(Int::from_signed(v, base))
}

/// `struct Sample { #[hex] a: i32, /* greeting */ b: &str }`, as a derive
/// would write it out.
struct Sample {
    a: i32,
    b: &'static str,
}

impl Serialize for Sample {
    fn serialize<S: ser::Serializer>(&self, serializer: S) -> Result<S::Ok, S::Error> {
        let mut fields = serializer.serialize_struct("Sample", 2)?;
        fields.serialize_field("a", &self.a)?;
        fields.serialize_field("b", &self.b)?;
        fields.end()
    }
}

impl Annotate for Sample {
    fn format(&self, _variant: Option<&str>, field: &MemberId) -> Option<Format> {
        match field {
            MemberId::Name("a") => Some(Format::Hex),
            _ => None,
        }
    }

    fn comment(&self, _variant: Option<&str>, field: &MemberId) -> Option<String> {
        match field {
            MemberId::Name("b") => Some("greeting".to_string()),
            _ => None,
        }
    }
}

/// An enum with one variant of each shape.
enum Shape {
    Dot,
    Label(Vec<u8>),
    Pair(u8, u8),
    Point { x: i32, y: i32 },
}

impl Serialize for Shape {
    fn serialize<S: ser::Serializer>(&self, serializer: S) -> Result<S::Ok, S::Error> {
        match self {
            Shape::Dot => serializer.serialize_unit_variant("Shape", 0, "Dot"),
            Shape::Label(bytes) => {
                serializer.serialize_newtype_variant("Shape", 1, "Label", &Raw(bytes))
            }
            Shape::Pair(a, b) => {
                let mut members = serializer.serialize_tuple_variant("Shape", 2, "Pair", 2)?;
                members.serialize_field(a)?;
                members.serialize_field(b)?;
                members.end()
            }
            Shape::Point { x, y } => {
                let mut fields = serializer.serialize_struct_variant("Shape", 3, "Point", 2)?;
                fields.serialize_field("x", x)?;
                fields.serialize_field("y", y)?;
                fields.end()
            }
        }
    }
}

impl Annotate for Shape {
    fn format(&self, variant: Option<&str>, field: &MemberId) -> Option<Format> {
        match (variant?, field) {
            ("Label", MemberId::Variant) => Some(Format::HexStr),
            ("Pair", MemberId::Index(1)) => Some(Format::Octal),
            ("Point", MemberId::Variant) => Some(Format::Compact),
            _ => None,
        }
    }

    fn comment(&self, variant: Option<&str>, field: &MemberId) -> Option<String> {
        match (variant?, field) {
            ("Dot", MemberId::Variant) => Some("never shown".to_string()),
            ("Pair", MemberId::Variant) => Some(format!("{} members", 2)),
            _ => None,
        }
    }
}

/// A struct around a `Sample`, with a hook of its own.
struct Outer(Sample);

impl Serialize for Outer {
    fn serialize<S: ser::Serializer>(&self, serializer: S) -> Result<S::Ok, S::Error> {
            let mut fields = serializer.serialize_struct("Outer", 1)?;
        fields.serialize_field("a", &self.0)?;
        fields.end()
    }
}

impl Annotate for Outer {
    fn format(&self, _variant: Option<&str>, field: &MemberId) -> Option<Format> {
        match field {
            MemberId::Name("a") => Some(Format::Binary),
            _ => None,
        }
    }
    fn comment(&self, _variant: Option<&str>, field: &MemberId) -> Option<String> {
        match field {
            MemberId::Name("b") => Some("outer".to_string()),
            _ => None,
        }
    }
}

/// A byte buffer that serializes as bytes, not as a sequence of numbers.
struct Raw<'a>(&'a [u8]);

impl Serialize for Raw<'_> {
    fn serialize<S: ser::Serializer>(&self, serializer: S) -> Result<S::Ok, S::Error> {
        serializer.serialize_bytes(self.0)
    }
}

/// A value that cannot be serialized.
struct Broken;

impl Serialize for Broken {
    fn serialize<S: ser::Serializer>(&self, _serializer: S) -> Result<S::Ok, S::Error> {
        Err(ser::Error::custom("broken value"))
    }
}

#[test]
fn serde_struct_with_hex_field_and_commented_field() {
    let doc = annotated(&Sample { a: 5, b: "hi" }).unwrap();
    assert_eq!(
        doc,
        Document::Mapping(vec![
            Document::Fragment(vec![text("a"), num(5, Base::Hex)]),
            Document::Fragment(vec![note("greeting"), text("b"), text("hi")]),
        ])
    );
    assert!(doc.is_well_formed());
}

#[test]
fn serde_struct_without_its_hook_is_plain() {
    assert_eq!(
        plain(&Sample { a: 5, b: "hi" }).unwrap(),
        Document::Mapping(vec![
            Document::Fragment(vec![text("a"), num(5, Base::Dec)]),
            Document::Fragment(vec![text("b"), text("hi")]),
        ])
    );
}

#[test]
fn serde_struct_variant_with_compact_on_the_variant() {
    let doc = annotated(&Shape::Point { x: 1, y: 2 }).unwrap();
    assert_eq!(
        doc,
        Document::Mapping(vec![Document::Fragment(vec![
            text("Point"),
            Document::Compact(Box::new(Document::Mapping(vec![
                Document::Fragment(vec![text("x"), num(1, Base::Dec)]),
                Document::Fragment(vec![text("y"), num(2, Base::Dec)]),
            ]))),
        ])])
    );
    assert!(doc.is_well_formed());
}

#[test]
fn serde_tuple_variant_with_comment_and_member_directive() {
    assert_eq!(
        annotated(&Shape::Pair(8, 9)).unwrap(),
        Document::Mapping(vec![Document::Fragment(vec![
            note("2 members"),
            text("Pair"),
            Document::Sequence(vec![num(8, Base::Dec), num(9, Base::Oct)]),
        ])])
    );
}

#[test]
fn serde_newtype_variant_renders_bytes_under_its_directive() {
    assert_eq!(
        annotated(&Shape::Label(vec![0xde, 0xad])).unwrap(),
        Document::Mapping(vec![Document::Fragment(vec![text("Label"), text("dead")])])
    );
    assert_eq!(
        plain(&Shape::Label(vec![0xde, 0xad])).unwrap(),
        Document::Mapping(vec![Document::Fragment(vec![
            text("Label"),
            Document::Bytes(vec![0xde, 0xad]),
        ])])
    );
}

#[test]
fn serde_unit_variant_is_its_name_without_comment() {
    assert_eq!(annotated(&Shape::Dot).unwrap(), text("Dot"));
}

#[test]
fn serde_values_of_the_standard_library() {
    let value = (1u8, -2i64, "s", 'c', true, (), None::<u8>, Some(3u16));
    assert_eq!(
        plain(&value).unwrap(),
        Document::Sequence(vec![
            num(1, Base::Dec),
            num(-2, Base::Dec),
            text("s"),
            text("c"),
            Document::Boolean(true),
            Document::Null,
            Document::Null,
            num(3, Base::Dec),
        ])
    );
    assert_eq!(
        plain(&vec![vec![1u32], vec![]]).unwrap(),
        Document::Sequence(vec![
            Document::Sequence(vec![num(1, Base::Dec)]),
            Document::Sequence(vec![]),
        ])
    );
    assert_eq!(plain(&1.5f32).unwrap(), Document::Float(1.5f64.to_bits()));
    assert_eq!(plain(&-0.25f64).unwrap(), Document::Float((-0.25f64).to_bits()));
    assert_eq!(plain(&u128::MAX).unwrap(), Document::Int(Int::from_unsigned(u128::MAX, Base::Dec)));
}

#[test]
fn serde_map_keeps_the_order_of_its_entries() {
    let mut map = BTreeMap::new();
    map.insert("b", vec![2u8]);
    map.insert("a", vec![1u8]);
    assert_eq!(
        plain(&map).unwrap(),
        Document::Mapping(vec![
            Document::Fragment(vec![text("a"), Document::Sequence(vec![num(1, Base::Dec)])]),
            Document::Fragment(vec![text("b"), Document::Sequence(vec![num(2, Base::Dec)])]),
        ])
    );
}

#[test]
fn serde_hook_is_not_handed_on_to_the_members() {
    assert_eq!(
        annotated(&Outer(Sample { a: 5, b: "hi" })).unwrap(),
        Document::Mapping(vec![Document::Fragment(vec![
            text("a"),
            Document::Mapping(vec![
                Document::Fragment(vec![text("a"), num(5, Base::Bin)]),
                Document::Fragment(vec![text("b"), text("hi")]),
            ]),
        ])])
    );
}

#[test]
fn serde_failure_of_a_member_is_handed_on_unchanged() {
    assert_eq!(
        plain(&(1u8, Broken, 2u8)),
        Err(Error::Message("broken value".to_string()))
    );
    assert_eq!(
        plain(&Some(vec![Broken])),
        Err(Error::Message("broken value".to_string()))
    );
}
