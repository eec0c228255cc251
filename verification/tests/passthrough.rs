use serde_annotate::document::{CommentFormat, Document, StrFormat};
use serde_annotate::error::Error;
use serde_annotate::integer::{Base, Int};
use serde_annotate::partial::Deserializer;
use serde_annotate::ser::AnnotatedSerializer;

fn tree() -> Document {
    Document::Mapping(vec![Document::Fragment(vec![
        Document::Comment("c".to_string(), CommentFormat::Standard),
        Document::String("k".to_string(), StrFormat::Standard),
        Document::Compact(Box::new(Document::Sequence(vec![
            Document::Int(Int::from_signed(10, Base::Hex)),
            Document::Bytes(vec![0, 1, 2]),
            Document::Float(0.25f64.to_bits()),
        ]))),
    ])])
}

#[test]
fn document_passes_through_the_tree_building_serializer_unchanged() {
    let ser = AnnotatedSerializer::new();
    let d = tree();
    assert_eq!(d.serialize(Some(&ser)), Ok(tree()));
}

#[test]
fn passthrough_ignores_the_context() {
    let ser = AnnotatedSerializer::new()
        .with_base(Base::Bin)
        .with_compact(true);
    let d = tree();
    let once = d.serialize(Some(&ser)).unwrap();
    assert_eq!(once, d);
    let twice = once.serialize(Some(&ser)).unwrap();
    assert_eq!(twice, d);
}

#[test]
fn document_cannot_be_serialized_to_a_foreign_destination() {
    let d = tree();
    let r = d.serialize(None);
    assert_eq!(r, Err(Error::UnsupportedSerialize));
    assert_eq!(
        r.unwrap_err().message(),
        "Serializing document nodes is only supported with serde_annotate::AnnotatedSerializer"
    );
}

#[test]
fn document_is_read_back_from_its_own_source() {
    let source = Deserializer::new(tree());
    assert_eq!(Document::deserialize(Some(&source)), Ok(tree()));
    assert_eq!(Document::deserialize(Some(&source)), Ok(tree()));
}

#[test]
fn document_cannot_be_read_from_a_foreign_source() {
    let r = Document::deserialize(None);
    assert_eq!(r, Err(Error::UnsupportedDeserialize));
    assert_eq!(
        r.unwrap_err().message(),
        "Deserializing document nodes is only supported with serde_annotate::Deserializer"
    );
}

#[test]
fn round_trip_through_serializer_and_source() {
    let ser = AnnotatedSerializer::new();
    let written = tree().serialize(Some(&ser)).unwrap();
    let source = Deserializer::new(written);
    assert_eq!(Document::deserialize(Some(&source)), Ok(tree()));
}

#[test]
fn try_specialize_picks_by_destination() {
    let ser = AnnotatedSerializer::new().with_base(Base::Oct);
    let own = AnnotatedSerializer::try_specialize(Some(&ser), |s| Some(s), || None);
    assert_eq!(own, Some(ser));
    let foreign = AnnotatedSerializer::try_specialize(None, |s| Some(s), || None);
    assert_eq!(foreign, None);
}

#[test]
fn try_specialize_picks_by_source() {
    let source = Deserializer::new(Document::Null);
    assert_eq!(Deserializer::try_specialize(Some(&source), |_| 1, || 2), 1);
    assert_eq!(Deserializer::try_specialize(None, |_| 1, || 2), 2);
}

#[test]
fn document_inside_a_field_is_embedded_as_it_is() {
    let ser = AnnotatedSerializer::new().with_base(Base::Bin);
    let ready = tree();
    let mut seq = ser.serialize_seq(None).unwrap();
    seq.serialize_element(|ser| ready.serialize(Some(&ser))).unwrap();
    seq.serialize_element(|ser| Ok(ser.serialize_u8(1))).unwrap();
    assert_eq!(
        seq.end().unwrap(),
        Document::Sequence(vec![tree(), Document::Int(Int::from_signed(1, Base::Bin))])
    );
}

#[test]
fn custom_error_keeps_its_words() {
    let e = Error::custom("field x is missing");
    assert_eq!(e, Error::Message("field x is missing".to_string()));
    assert_eq!(e.message(), "field x is missing");
}
