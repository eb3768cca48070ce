use rustmailer_core::decoders::{decode_section, try_decode_string};
use rustmailer_core::section::{
    BodyContentCommon, BodyContentSinglePart, BodyStructure, ContentDisposition, ContentEncoding,
    ContentType, Encoding, PartType, SectionExtractor, SegmentPath,
};
use rustmailer_core::tokens::TokenSource;

struct Fixed;

impl TokenSource for Fixed {
    fn next_token(&mut self, _len: usize) -> String {
        "tok".to_string()
    }

    fn next_id(&mut self, _bits: u32) -> u64 {
        1
    }
}

fn leaf(
    ty: &str,
    subtype: &str,
    disposition: Option<&str>,
    params: Option<Vec<(&str, &str)>>,
    encoding: ContentEncoding,
    size: u32,
) -> BodyStructure {
    BodyStructure::Part {
        common: BodyContentCommon {
            ty: ContentType {
                ty: ty.into(),
                subtype: subtype.into(),
                params: params
                    .map(|v| v.into_iter().map(|(k, v)| (k.to_string(), v.to_string())).collect()),
            },
            disposition: disposition.map(|d| ContentDisposition { ty: d.into(), params: None }),
        },
        other: BodyContentSinglePart { id: Some("<c1>".into()), transfer_encoding: encoding, octets: size },
    }
}

#[test]
fn segment_paths() {
    let p = SegmentPath::new(vec![1, 2]);
    let q = p.with_added_segment(3);
    assert_eq!(p.segments, vec![1, 2]);
    assert_eq!(q.segments, vec![1, 2, 3]);
    assert_eq!(q.to_string(), "1.2.3");
    assert_eq!(SegmentPath::new(vec![]).to_string(), "1");
    assert_eq!(SegmentPath::new(vec![]).section_path(), vec![1]);
    assert_eq!(q.clone().section_path(), vec![1, 2, 3]);
    let mut r = SegmentPath::new(vec![4]);
    r.add(5);
    assert_eq!(r.segments, vec![4, 5]);
}

#[test]
fn parts_and_attachments_are_found_in_document_order() {
    let tree = BodyStructure::Multipart {
        bodies: vec![
            BodyStructure::Multipart {
                bodies: vec![
                    leaf("TEXT", "PLAIN", None, Some(vec![("charset", "utf-8")]), ContentEncoding::QuotedPrintable, 10),
                    leaf("text", "html", None, None, ContentEncoding::Base64, 20),
                ],
            },
            leaf("application", "pdf", Some("attachment"), Some(vec![("NAME", " report.pdf ")]), ContentEncoding::Base64, 30),
            leaf("image", "png", Some("INLINE"), None, ContentEncoding::SevenBit, 40),
        ],
    };
    let extractor = SectionExtractor::new(&tree);
    let parts = extractor.get_body_parts(&mut Fixed).unwrap();
    assert_eq!(parts.len(), 2);
    assert_eq!(parts[0].part_type, PartType::Plain);
    assert_eq!(parts[0].path.segments, vec![1, 1]);
    assert_eq!(parts[0].transfer_encoding, Encoding::QuotedPrintable);
    assert_eq!(parts[1].part_type, PartType::Html);
    assert_eq!(parts[1].path.segments, vec![1, 2]);
    assert_eq!(parts[1].size, 20);
    let atts = extractor.get_attachments(&mut Fixed).unwrap();
    assert_eq!(atts.len(), 2);
    assert_eq!(atts[0].filename, Some("report.pdf".to_string()));
    assert_eq!(atts[0].path.segments, vec![2]);
    assert!(!atts[0].inline);
    assert_eq!(atts[0].file_type, "pdf");
    assert!(atts[1].inline);
    assert_eq!(atts[1].content_id, Some("<c1>".to_string()));
    assert_eq!(atts[1].transfer_encoding, Encoding::Unencoded);
    let single = leaf("image", "gif", None, None, ContentEncoding::Binary, 1);
    assert!(SectionExtractor::new(&single).get_attachments(&mut Fixed).is_none());
    assert!(SectionExtractor::new(&single).get_body_parts(&mut Fixed).is_none());
}

#[test]
fn sections_are_decoded_by_their_encoding() {
    assert_eq!(decode_section(b"SGVsbG8=", &Encoding::Base64), Some(b"Hello".to_vec()));
    assert_eq!(decode_section(b"caf=C3=A9", &Encoding::QuotedPrintable), Some("café".as_bytes().to_vec()));
    assert_eq!(decode_section(b"raw", &Encoding::Unencoded), Some(b"raw".to_vec()));
    assert_eq!(Encoding::from_content_encoding(&ContentEncoding::Other("x-uu".into())), Encoding::Unencoded);
    assert_eq!(Encoding::from_content_encoding(&ContentEncoding::Base64), Encoding::Base64);
}

#[test]
fn encoded_words_are_decoded() {
    assert_eq!(try_decode_string("=?utf-8?B?SGVsbG8=?="), "Hello");
    assert_eq!(try_decode_string("plain name"), "plain name");
    assert_eq!(try_decode_string("=?"), "=?");
}
