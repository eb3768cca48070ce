//! MIME sections of a message: their paths, their transfer encodings, and the
//! extraction of text bodies and attachments from a body structure.
use vstd::prelude::*;
use crate::decoders::{decoded_header_text, rfc2047_decode, try_decode_string};
use crate::tokens::TokenSource;
use crate::text::{
    chars_of, decimal, eq_ignore_ascii_case, push_char, str_eq_ignore_ascii_case, string_from_range,
    trim, trim_bounds, u64_to_decimal,
};

verus! {

/// The content transfer encoding of a MIME part.
#[derive(Clone, Copy, Debug, PartialEq, Eq, Structural)]
pub enum Encoding {
    /// No encoding: the content is sent as it is (`None` in the wire model).
    Unencoded,
    /// Quoted-Printable encoding.
    QuotedPrintable,
    /// Base64 encoding.
    Base64,
}

impl Default for Encoding {
    fn default() -> (r: Encoding)
        ensures
            r == Encoding::Unencoded,
    {
        Encoding::Unencoded
    }
}

/// The transfer encoding as an IMAP body structure reports it.
#[derive(Clone, Debug, PartialEq, Eq)]
pub enum ContentEncoding {
    SevenBit,
    EightBit,
    Binary,
    Base64,
    QuotedPrintable,
    Other(String),
}

pub open spec fn encoding_of(e: ContentEncoding) -> Encoding {
    match e {
        ContentEncoding::Base64 => Encoding::Base64,
        ContentEncoding::QuotedPrintable => Encoding::QuotedPrintable,
        _ => Encoding::Unencoded,
    }
}

impl Encoding {
    /// Maps a reported transfer encoding to the three that the library decodes.
    pub fn from_content_encoding(e: &ContentEncoding) -> (r: Encoding)
        ensures
            r == encoding_of(*e),
    {
        match e {
            ContentEncoding::SevenBit | ContentEncoding::EightBit | ContentEncoding::Binary => {
                Encoding::Unencoded
            },
            ContentEncoding::Base64 => Encoding::Base64,
            ContentEncoding::QuotedPrintable => Encoding::QuotedPrintable,
            ContentEncoding::Other(_) => Encoding::Unencoded,
        }
    }
}

/// Whether a text body part is plain text or HTML.
#[derive(Clone, Copy, Debug, PartialEq, Eq, Structural)]
pub enum PartType {
    Plain,
    Html,
}

impl Default for PartType {
    fn default() -> (r: PartType)
        ensures
            r == PartType::Plain,
    {
        PartType::Plain
    }
}

/// A MIME parameter such as `charset` or `name`.
#[derive(Clone, Debug, Default, PartialEq, Eq)]
pub struct Param {
    pub key: String,
    pub value: String,
}

/// The position of a part in the MIME tree: `[1, 2]` is the second sub-part of
/// the first part.
#[derive(Clone, Debug, Default, PartialEq, Eq)]
pub struct SegmentPath {
    pub segments: Vec<u64>,
}

/// The dotted form of a path: `1` for the empty path, the segments joined by
/// `.` otherwise.
pub open spec fn dotted(segments: Seq<u64>) -> Seq<char>
    decreases segments.len(),
{
    if segments.len() == 0 {
        seq!['1']
    } else if segments.len() == 1 {
        decimal(segments[0] as nat)
    } else {
        dotted(segments.drop_last()) + seq!['.'] + decimal(segments.last() as nat)
    }
}

/// The part numbers that address the section in an IMAP `FETCH`: `[1]` for the
/// empty path, otherwise each segment cut to 32 bits.
pub open spec fn section_numbers(segments: Seq<u64>) -> Seq<u32> {
    if segments.len() == 0 {
        seq![1u32]
    } else {
        segments.map_values(|u: u64| u as u32)
    }
}

impl SegmentPath {
    pub fn new(segments: Vec<u64>) -> (r: SegmentPath)
        ensures
            r.segments@ == segments@,
    {
        SegmentPath { segments }
    }

    pub fn add(&mut self, segment: u64)
        ensures
            final(self).segments@ == old(self).segments@.push(segment),
    {
        self.segments.push(segment);
    }

    /// A copy of this path extended by one segment; the path itself is unchanged.
    pub fn with_added_segment(&self, segment: u64) -> (r: SegmentPath)
        ensures
            r.segments@ == self.segments@.push(segment),
    {
        let mut v: Vec<u64> = Vec::new();
        let mut i: usize = 0;
        while i < self.segments.len()
            invariant
                i <= self.segments@.len(),
                v@ == self.segments@.take(i as int),
            decreases self.segments.len() - i,
        {
            v.push(self.segments[i]);
            i = i + 1;
            assert(v@ =~= self.segments@.take(i as int));
        }
        assert(self.segments@.take(self.segments@.len() as int) =~= self.segments@);
        let mut cloned = SegmentPath { segments: v };
        cloned.add(segment);
        cloned
    }

    /// The part numbers of the IMAP section this path designates.
    pub fn section_path(self) -> (r: Vec<u32>)
        ensures
            r@ == section_numbers(self.segments@),
    {
        let mut r: Vec<u32> = Vec::new();
        if self.segments.len() == 0 {
            r.push(1);
            assert(r@ =~= seq![1u32]);
            return r;
        }
        let mut i: usize = 0;
        while i < self.segments.len()
            invariant
                i <= self.segments@.len(),
                r@ == self.segments@.take(i as int).map_values(|u: u64| u as u32),
            decreases self.segments.len() - i,
        {
            r.push(self.segments[i] as u32);
            i = i + 1;
            assert(r@ =~= self.segments@.take(i as int).map_values(|u: u64| u as u32));
        }
        assert(self.segments@.take(self.segments@.len() as int) =~= self.segments@);
        r
    }

    /// The dotted form of the path, as it is printed and sent in `BODY[...]`.
    pub fn to_string(&self) -> (r: String)
        ensures
            r@ == dotted(self.segments@),
    {
        let n = self.segments.len();
        if n == 0 {
            let mut r = String::new();
            push_char(&mut r, '1');
            assert(r@ =~= seq!['1']);
            return r;
        }
        let mut r = u64_to_decimal(self.segments[0]);
        assert(self.segments@.take(1) =~= seq![self.segments@[0]]);
        let mut i: usize = 1;
        while i < n
            invariant
                1 <= i <= n == self.segments@.len(),
                r@ == dotted(self.segments@.take(i as int)),
            decreases n - i,
        {
            let ghost next = self.segments@.take(i + 1);
            assert(next.drop_last() =~= self.segments@.take(i as int));
            push_char(&mut r, '.');
            let d = u64_to_decimal(self.segments[i]);
            r.append(d.as_str());
            i = i + 1;
        }
        assert(self.segments@.take(n as int) =~= self.segments@);
        r
    }
}

/// A text body part of a message.
#[derive(Clone, Debug, Default, PartialEq, Eq)]
pub struct EmailBodyPart {
    /// A unique identifier for the part.
    pub id: String,
    pub part_type: PartType,
    pub path: SegmentPath,
    pub params: Option<Vec<Param>>,
    /// The size of the part in bytes.
    pub size: usize,
    pub transfer_encoding: Encoding,
}

impl EmailBodyPart {
    /// A body part with the given identifier (a fresh random token where the
    /// part is discovered in a body structure).
    pub fn new(
        id: String,
        part_type: PartType,
        path: SegmentPath,
        params: Option<Vec<Param>>,
        size: usize,
        transfer_encoding: Encoding,
    ) -> (r: EmailBodyPart)
        ensures
            r.id == id,
            r.part_type == part_type,
            r.path == path,
            r.params == params,
            r.size == size,
            r.transfer_encoding == transfer_encoding,
    {
        EmailBodyPart { id, part_type, path, params, size, transfer_encoding }
    }
}

/// An attachment of a message.
#[derive(Clone, Debug, Default, PartialEq, Eq)]
pub struct ImapAttachment {
    pub id: String,
    pub path: SegmentPath,
    pub filename: Option<String>,
    /// Whether the attachment is shown inside the body rather than as a file.
    pub inline: bool,
    pub content_id: Option<String>,
    pub size: usize,
    /// The MIME subtype of the attachment, such as `pdf` or `png`.
    pub file_type: String,
    pub transfer_encoding: Encoding,
}

impl ImapAttachment {
    pub fn new(
        id: String,
        path: SegmentPath,
        filename: Option<String>,
        size: usize,
        file_type: String,
        transfer_encoding: Encoding,
        inline: bool,
        content_id: Option<String>,
    ) -> (r: ImapAttachment)
        ensures
            r.id == id,
            r.path == path,
            r.filename == filename,
            r.size == size,
            r.file_type == file_type,
            r.transfer_encoding == transfer_encoding,
            r.inline == inline,
            r.content_id == content_id,
    {
        ImapAttachment { id, path, filename, size, file_type, transfer_encoding, inline, content_id }
    }
}

/// The `Content-Type` of a part: type, subtype and parameters.
#[derive(Clone, Debug, PartialEq, Eq)]
pub struct ContentType {
    pub ty: String,
    pub subtype: String,
    pub params: Option<Vec<(String, String)>>,
}

/// The `Content-Disposition` of a part.
#[derive(Clone, Debug, PartialEq, Eq)]
pub struct ContentDisposition {
    pub ty: String,
    pub params: Option<Vec<(String, String)>>,
}

/// What every leaf of a body structure reports about its content.
#[derive(Clone, Debug, PartialEq, Eq)]
pub struct BodyContentCommon {
    pub ty: ContentType,
    pub disposition: Option<ContentDisposition>,
}

/// What a single-part leaf reports about its encoding and size.
#[derive(Clone, Debug, PartialEq, Eq)]
pub struct BodyContentSinglePart {
    pub id: Option<String>,
    pub transfer_encoding: ContentEncoding,
    pub octets: u32,
}

/// The MIME tree of a message as an IMAP `BODYSTRUCTURE` describes it. The
/// basic, message and text leaves are all handled alike, so one variant holds
/// them.
#[derive(Debug, PartialEq, Eq)]
pub enum BodyStructure {
    Multipart { bodies: Vec<BodyStructure> },
    Part { common: BodyContentCommon, other: BodyContentSinglePart },
}

/// An attachment as the extraction determines it: every field but the random
/// identifier.
pub ghost struct AttachmentShape {
    pub path: Seq<u64>,
    pub filename: Option<Seq<char>>,
    pub inline: bool,
    pub content_id: Option<Seq<char>>,
    pub size: nat,
    pub file_type: Seq<char>,
    pub encoding: Encoding,
}

/// A body part as the extraction determines it: every field but the random
/// identifier.
pub ghost struct BodyPartShape {
    pub part_type: PartType,
    pub path: Seq<u64>,
    pub params: Option<Seq<(Seq<char>, Seq<char>)>>,
    pub size: nat,
    pub encoding: Encoding,
}

pub open spec fn opt_str(v: Option<String>) -> Option<Seq<char>> {
    match v {
        Some(s) => Some(s@),
        None => None,
    }
}

pub open spec fn attachment_shape(a: ImapAttachment) -> AttachmentShape {
    AttachmentShape {
        path: a.path.segments@,
        filename: opt_str(a.filename),
        inline: a.inline,
        content_id: opt_str(a.content_id),
        size: a.size as nat,
        file_type: a.file_type@,
        encoding: a.transfer_encoding,
    }
}

pub open spec fn attachment_shapes(v: Seq<ImapAttachment>) -> Seq<AttachmentShape> {
    v.map_values(|a: ImapAttachment| attachment_shape(a))
}

pub open spec fn param_pairs(v: Seq<(String, String)>) -> Seq<(Seq<char>, Seq<char>)> {
    v.map_values(|p: (String, String)| (p.0@, p.1@))
}

pub open spec fn params_view(v: Seq<Param>) -> Seq<(Seq<char>, Seq<char>)> {
    v.map_values(|p: Param| (p.key@, p.value@))
}

pub open spec fn body_part_shape(p: EmailBodyPart) -> BodyPartShape {
    BodyPartShape {
        part_type: p.part_type,
        path: p.path.segments@,
        params: match p.params {
            Some(v) => Some(params_view(v@)),
            None => None,
        },
        size: p.size as nat,
        encoding: p.transfer_encoding,
    }
}

pub open spec fn body_part_shapes(v: Seq<EmailBodyPart>) -> Seq<BodyPartShape> {
    v.map_values(|p: EmailBodyPart| body_part_shape(p))
}

/// The file name of a part: its first parameter whose key is `name` (in any
/// ASCII case), trimmed and decoded when it is an encoded word.
pub open spec fn first_name_param(ps: Seq<(String, String)>) -> Option<Seq<char>>
    decreases ps.len(),
{
    if ps.len() == 0 {
        None
    } else if eq_ignore_ascii_case(ps[0].0@, "name"@) {
        Some(decoded_header_text(trim(ps[0].1@)))
    } else {
        first_name_param(ps.drop_first())
    }
}

pub open spec fn file_name_spec(ty: ContentType) -> Option<Seq<char>> {
    match ty.params {
        None => None,
        Some(ps) => first_name_param(ps@),
    }
}

/// The value of the first `name` parameter of a part is its file name, trimmed
/// and, when it has the shape of an encoded word (`=?...?=`) that decodes as
/// RFC 2047, decoded: an encoded word that decodes is never returned as it
/// stands. A part without a `name` parameter has no file name.
pub proof fn lemma_file_name_is_decoded(ty: ContentType, i: int)
    requires
        ty.params is Some,
        0 <= i < ty.params->0@.len(),
        eq_ignore_ascii_case(ty.params->0@[i].0@, "name"@),
        forall|j: int| 0 <= j < i ==> !eq_ignore_ascii_case(#[trigger] ty.params->0@[j].0@, "name"@),
    ensures
        ({
            let t = trim(ty.params->0@[i].1@);
            let word = t.len() >= 2 && t.subrange(0, 2) == "=?"@ && t.subrange(t.len() - 2, t.len() as int)
                == "?="@;
            file_name_spec(ty) == Some(
                if word && rfc2047_decode(t.skip(1)) is Some {
                    rfc2047_decode(t.skip(1))->0
                } else {
                    t
                },
            )
        }),
{
    reveal_strlit("=?");
    reveal_strlit("?=");
    let ps = ty.params->0@;
    lemma_first_name_param_at(ps, i);
    let t = trim(ps[i].1@);
    if t.len() >= 2 {
        assert(t.subrange(0, 2)[0] == t[0] && t.subrange(0, 2)[1] == t[1]);
        assert(t.subrange(t.len() - 2, t.len() as int)[0] == t[t.len() - 2]);
        assert(t.subrange(t.len() - 2, t.len() as int)[1] == t[t.len() - 1]);
        if t[0] == '=' && t[1] == '?' && t[t.len() - 2] == '?' && t[t.len() - 1] == '=' {
            assert(t.subrange(0, 2) =~= "=?"@);
            assert(t.subrange(t.len() - 2, t.len() as int) =~= "?="@);
        }
    }
}

proof fn lemma_first_name_param_at(ps: Seq<(String, String)>, i: int)
    requires
        0 <= i < ps.len(),
        eq_ignore_ascii_case(ps[i].0@, "name"@),
        forall|j: int| 0 <= j < i ==> !eq_ignore_ascii_case(#[trigger] ps[j].0@, "name"@),
    ensures
        first_name_param(ps) == Some(decoded_header_text(trim(ps[i].1@))),
    decreases i,
{
    if i > 0 {
        assert forall|j: int| 0 <= j < i - 1 implies !eq_ignore_ascii_case(
            #[trigger] ps.drop_first()[j].0@,
            "name"@,
        ) by {
            assert(ps.drop_first()[j] == ps[j + 1]);
        }
        lemma_first_name_param_at(ps.drop_first(), i - 1);
    }
}

/// A part whose parameters have no `name` has no file name.
pub proof fn lemma_no_name_no_file_name(ty: ContentType)
    requires
        ty.params matches Some(ps) ==> forall|j: int|
            0 <= j < ps@.len() ==> !eq_ignore_ascii_case(#[trigger] ps@[j].0@, "name"@),
    ensures
        file_name_spec(ty) is None,
{
    if let Some(ps) = ty.params {
        lemma_no_name_param(ps@);
    }
}

proof fn lemma_no_name_param(ps: Seq<(String, String)>)
    requires
        forall|j: int| 0 <= j < ps.len() ==> !eq_ignore_ascii_case(#[trigger] ps[j].0@, "name"@),
    ensures
        first_name_param(ps) is None,
    decreases ps.len(),
{
    if ps.len() > 0 {
        assert(!eq_ignore_ascii_case(ps[0].0@, "name"@));
        assert forall|j: int| 0 <= j < ps.drop_first().len() implies !eq_ignore_ascii_case(
            #[trigger] ps.drop_first()[j].0@,
            "name"@,
        ) by {
            assert(ps.drop_first()[j] == ps[j + 1]);
        }
        lemma_no_name_param(ps.drop_first());
    }
}

/// A leaf is an attachment when its disposition is `attachment` or `inline`.
pub open spec fn leaf_attachment(
    path: Seq<u64>,
    common: BodyContentCommon,
    other: BodyContentSinglePart,
) -> Option<AttachmentShape> {
    match common.disposition {
        None => None,
        Some(d) => if eq_ignore_ascii_case(d.ty@, "attachment"@) || eq_ignore_ascii_case(
            d.ty@,
            "inline"@,
        ) {
            Some(
                AttachmentShape {
                    path,
                    filename: file_name_spec(common.ty),
                    inline: eq_ignore_ascii_case(d.ty@, "inline"@),
                    content_id: opt_str(other.id),
                    size: other.octets as nat,
                    file_type: common.ty.subtype@,
                    encoding: encoding_of(other.transfer_encoding),
                },
            )
        } else {
            None
        },
    }
}

/// A leaf is a body part when its type is `TEXT` and its subtype `PLAIN` or
/// `HTML` (in any ASCII case).
pub open spec fn leaf_body_part(
    path: Seq<u64>,
    common: BodyContentCommon,
    other: BodyContentSinglePart,
) -> Option<BodyPartShape> {
    if eq_ignore_ascii_case(common.ty.ty@, "TEXT"@) {
        let kind = if eq_ignore_ascii_case(common.ty.subtype@, "PLAIN"@) {
            Some(PartType::Plain)
        } else if eq_ignore_ascii_case(common.ty.subtype@, "HTML"@) {
            Some(PartType::Html)
        } else {
            None
        };
        match kind {
            None => None,
            Some(k) => Some(
                BodyPartShape {
                    part_type: k,
                    path,
                    params: match common.ty.params {
                        Some(v) => Some(param_pairs(v@)),
                        None => None,
                    },
                    size: other.octets as nat,
                    encoding: encoding_of(other.transfer_encoding),
                },
            ),
        }
    } else {
        None
    }
}

/// The attachments of a tree whose root sits at `path`, in document order;
/// `None` when there are none.
pub open spec fn attachments_spec(b: BodyStructure, path: Seq<u64>) -> Option<Seq<AttachmentShape>>
    decreases b, 0nat,
{
    match b {
        BodyStructure::Multipart { bodies } => {
            let all = attachments_of_children(bodies@, path, bodies@.len());
            if all.len() == 0 {
                None
            } else {
                Some(all)
            }
        },
        BodyStructure::Part { common, other } => match leaf_attachment(path, common, other) {
            Some(a) => Some(seq![a]),
            None => None,
        },
    }
}

/// The attachments of the first `n` children, the `i`-th child sitting at
/// `path` extended by `i + 1`.
pub open spec fn attachments_of_children(
    bodies: Seq<BodyStructure>,
    path: Seq<u64>,
    n: nat,
) -> Seq<AttachmentShape>
    decreases bodies, n,
{
    if n == 0 || n > bodies.len() {
        Seq::empty()
    } else {
        attachments_of_children(bodies, path, (n - 1) as nat) + match attachments_spec(
            bodies[n - 1],
            path.push(n as u64),
        ) {
            Some(x) => x,
            None => Seq::empty(),
        }
    }
}

/// The text body parts of a tree whose root sits at `path`, in document order;
/// `None` when there are none.
pub open spec fn body_parts_spec(b: BodyStructure, path: Seq<u64>) -> Option<Seq<BodyPartShape>>
    decreases b, 0nat,
{
    match b {
        BodyStructure::Multipart { bodies } => {
            let all = body_parts_of_children(bodies@, path, bodies@.len());
            if all.len() == 0 {
                None
            } else {
                Some(all)
            }
        },
        BodyStructure::Part { common, other } => match leaf_body_part(path, common, other) {
            Some(p) => Some(seq![p]),
            None => None,
        },
    }
}

pub open spec fn body_parts_of_children(
    bodies: Seq<BodyStructure>,
    path: Seq<u64>,
    n: nat,
) -> Seq<BodyPartShape>
    decreases bodies, n,
{
    if n == 0 || n > bodies.len() {
        Seq::empty()
    } else {
        body_parts_of_children(bodies, path, (n - 1) as nat) + match body_parts_spec(
            bodies[n - 1],
            path.push(n as u64),
        ) {
            Some(x) => x,
            None => Seq::empty(),
        }
    }
}

pub open spec fn opt_shapes_a(r: Option<Vec<ImapAttachment>>) -> Option<Seq<AttachmentShape>> {
    match r {
        Some(v) => Some(attachment_shapes(v@)),
        None => None,
    }
}

pub open spec fn opt_shapes_b(r: Option<Vec<EmailBodyPart>>) -> Option<Seq<BodyPartShape>> {
    match r {
        Some(v) => Some(body_part_shapes(v@)),
        None => None,
    }
}

fn clone_string(s: &String) -> (r: String)
    ensures
        r@ == s@,
{
    s.clone()
}

fn clone_opt_string(s: &Option<String>) -> (r: Option<String>)
    ensures
        opt_str(r) == opt_str(*s),
{
    match s {
        Some(v) => Some(clone_string(v)),
        None => None,
    }
}

fn clone_path(p: &SegmentPath) -> (r: SegmentPath)
    ensures
        r.segments@ == p.segments@,
{
    let mut v: Vec<u64> = Vec::new();
    let mut i: usize = 0;
    while i < p.segments.len()
        invariant
            i <= p.segments@.len(),
            v@ == p.segments@.take(i as int),
        decreases p.segments.len() - i,
    {
        v.push(p.segments[i]);
        i = i + 1;
        assert(v@ =~= p.segments@.take(i as int));
    }
    assert(p.segments@.take(p.segments@.len() as int) =~= p.segments@);
    SegmentPath { segments: v }
}

/// Trims a string slice (`str::trim`).
fn trim_str(s: &str) -> (r: String)
    ensures
        r@ == trim(s@),
{
    let v = chars_of(s);
    let (a, b) = trim_bounds(&v);
    string_from_range(&v, a, b)
}

/// The file name from the content type's parameters.
#[verifier::loop_isolation(false)]
fn get_file_name(ty: &ContentType) -> (r: Option<String>)
    ensures
        opt_str(r) == file_name_spec(*ty),
{
    match &ty.params {
        None => None,
        Some(ps) => {
            let mut i: usize = 0;
            assert(ps@.skip(0) =~= ps@);
            while i < ps.len()
                invariant
                    i <= ps@.len(),
                    first_name_param(ps@) == first_name_param(ps@.skip(i as int)),
                decreases ps.len() - i,
            {
                assert(ps@.skip(i as int)[0] == ps@[i as int]);
                assert(ps@.skip(i as int).drop_first() =~= ps@.skip(i + 1));
                let (key, value) = &ps[i];
                assert(key@ == ps@[i as int].0@ && value@ == ps@[i as int].1@);
                if str_eq_ignore_ascii_case(key.as_str(), "name") {
                    let t = trim_str(value.as_str());
                    let d = try_decode_string(t.as_str());
                    assert(first_name_param(ps@.skip(i as int)) == Some(
                        decoded_header_text(trim(ps@[i as int].1@)),
                    ));
                    return Some(d);
                }
                i = i + 1;
            }
            None
        },
    }
}

fn parse_attachment<T: TokenSource>(
    segment: SegmentPath,
    common: &BodyContentCommon,
    other: &BodyContentSinglePart,
    tokens: &mut T,
) -> (r: Option<ImapAttachment>)
    ensures
        match r {
            Some(a) => leaf_attachment(segment.segments@, *common, *other) == Some(
                attachment_shape(a),
            ),
            None => leaf_attachment(segment.segments@, *common, *other) is None,
        },
{
    match &common.disposition {
        None => None,
        Some(disposition) => {
            let is_attachment = str_eq_ignore_ascii_case(disposition.ty.as_str(), "attachment");
            let inline = str_eq_ignore_ascii_case(disposition.ty.as_str(), "inline");
            if is_attachment || inline {
                let attachment_encoding = Encoding::from_content_encoding(&other.transfer_encoding);
                let content_id = clone_opt_string(&other.id);
                let id = tokens.next_token(72);
                let a = ImapAttachment::new(
                    id,
                    segment,
                    get_file_name(&common.ty),
                    other.octets as usize,
                    clone_string(&common.ty.subtype),
                    attachment_encoding,
                    inline,
                    content_id,
                );
                Some(a)
            } else {
                None
            }
        },
    }
}

fn convert_params(common: &BodyContentCommon) -> (r: Option<Vec<Param>>)
    ensures
        match r {
            Some(v) => common.ty.params matches Some(ps) && params_view(v@) == param_pairs(ps@),
            None => common.ty.params is None,
        },
{
    match &common.ty.params {
        None => None,
        Some(ps) => {
            let mut out: Vec<Param> = Vec::new();
            let mut i: usize = 0;
            while i < ps.len()
                invariant
                    i <= ps@.len(),
                    params_view(out@) == param_pairs(ps@.take(i as int)),
                decreases ps.len() - i,
            {
                let (k, v) = &ps[i];
                assert(k@ == ps@[i as int].0@ && v@ == ps@[i as int].1@);
                assert(ps@.take(i + 1) =~= ps@.take(i as int).push(ps@[i as int]));
                let ghost before = params_view(out@);
                out.push(Param { key: clone_string(k), value: clone_string(v) });
                assert(params_view(out@) =~= before.push((k@, v@)));
                i = i + 1;
                assert(params_view(out@) =~= param_pairs(ps@.take(i as int)));
            }
            assert(ps@.take(ps@.len() as int) =~= ps@);
            Some(out)
        },
    }
}

fn parse_body<T: TokenSource>(
    segment: SegmentPath,
    common: &BodyContentCommon,
    other: &BodyContentSinglePart,
    tokens: &mut T,
) -> (r: Option<EmailBodyPart>)
    ensures
        match r {
            Some(p) => leaf_body_part(segment.segments@, *common, *other) == Some(
                body_part_shape(p),
            ),
            None => leaf_body_part(segment.segments@, *common, *other) is None,
        },
{
    if str_eq_ignore_ascii_case(common.ty.ty.as_str(), "TEXT") {
        let part_type = if str_eq_ignore_ascii_case(common.ty.subtype.as_str(), "PLAIN") {
            PartType::Plain
        } else if str_eq_ignore_ascii_case(common.ty.subtype.as_str(), "HTML") {
            PartType::Html
        } else {
            return None;
        };
        let txt_encoding = Encoding::from_content_encoding(&other.transfer_encoding);
        let size = other.octets as usize;
        let params = convert_params(common);
        let id = tokens.next_token(64);
        Some(EmailBodyPart::new(id, part_type, segment, params, size, txt_encoding))
    } else {
        None
    }
}

#[verifier::loop_isolation(false)]
fn recursive_parse_attachments<T: TokenSource>(
    body_structure: &BodyStructure,
    segment: SegmentPath,
    tokens: &mut T,
) -> (r: Option<Vec<ImapAttachment>>)
    ensures
        opt_shapes_a(r) == attachments_spec(*body_structure, segment.segments@),
    decreases body_structure,
{
    match body_structure {
        BodyStructure::Multipart { bodies } => {
            let mut attachments: Vec<ImapAttachment> = Vec::new();
            let mut i: usize = 0;
            while i < bodies.len()
                invariant
                    i <= bodies@.len(),
                    attachment_shapes(attachments@) == attachments_of_children(
                        bodies@,
                        segment.segments@,
                        i as nat,
                    ),
                    *body_structure == (BodyStructure::Multipart { bodies: *bodies }),
                decreases bodies.len() - i,
            {
                assert(decreases_to!(*body_structure => bodies@[i as int]));
                let child_path = segment.with_added_segment(i as u64 + 1);
                let ghost before = attachment_shapes(attachments@);
                match recursive_parse_attachments(&bodies[i], child_path, tokens) {
                    Some(part) => {
                        let mut k: usize = 0;
                        while k < part.len()
                            invariant
                                k <= part@.len(),
                                attachment_shapes(attachments@) == before + attachment_shapes(
                                    part@.take(k as int),
                                ),
                            decreases part.len() - k,
                        {
                            let ghost mid = attachment_shapes(attachments@);
                            let c = clone_attachment(&part[k]);
                            attachments.push(c);
                            assert(attachment_shapes(attachments@) =~= mid.push(
                                attachment_shape(part@[k as int]),
                            ));
                            assert(part@.take(k + 1) =~= part@.take(k as int).push(part@[k as int]));
                            assert(attachment_shapes(part@.take(k + 1)) =~= attachment_shapes(
                                part@.take(k as int),
                            ).push(attachment_shape(part@[k as int])));
                            k = k + 1;
                            assert(attachment_shapes(attachments@) =~= before + attachment_shapes(
                                part@.take(k as int),
                            ));
                        }
                        assert(part@.take(part@.len() as int) =~= part@);
                    },
                    None => {
                        assert(before + Seq::<AttachmentShape>::empty() =~= before);
                    },
                }
                i = i + 1;
            }
            if attachments.len() == 0 {
                None
            } else {
                Some(attachments)
            }
        },
        BodyStructure::Part { common, other } => match parse_attachment(
            segment,
            common,
            other,
            tokens,
        ) {
            Some(a) => {
                let mut v: Vec<ImapAttachment> = Vec::new();
                v.push(a);
                assert(attachment_shapes(v@) =~= seq![attachment_shape(a)]);
                Some(v)
            },
            None => None,
        },
    }
}

fn clone_attachment(a: &ImapAttachment) -> (r: ImapAttachment)
    ensures
        attachment_shape(r) == attachment_shape(*a),
        r.id@ == a.id@,
{
    ImapAttachment {
        id: clone_string(&a.id),
        path: clone_path(&a.path),
        filename: clone_opt_string(&a.filename),
        inline: a.inline,
        content_id: clone_opt_string(&a.content_id),
        size: a.size,
        file_type: clone_string(&a.file_type),
        transfer_encoding: a.transfer_encoding,
    }
}

#[verifier::loop_isolation(false)]
fn recursive_parse_body<T: TokenSource>(
    body_structure: &BodyStructure,
    segment: SegmentPath,
    tokens: &mut T,
) -> (r: Option<Vec<EmailBodyPart>>)
    ensures
        opt_shapes_b(r) == body_parts_spec(*body_structure, segment.segments@),
    decreases body_structure,
{
    match body_structure {
        BodyStructure::Multipart { bodies } => {
            let mut parts: Vec<EmailBodyPart> = Vec::new();
            let mut i: usize = 0;
            while i < bodies.len()
                invariant
                    i <= bodies@.len(),
                    body_part_shapes(parts@) == body_parts_of_children(
                        bodies@,
                        segment.segments@,
                        i as nat,
                    ),
                    *body_structure == (BodyStructure::Multipart { bodies: *bodies }),
                decreases bodies.len() - i,
            {
                assert(decreases_to!(*body_structure => bodies@[i as int]));
                let child_path = segment.with_added_segment(i as u64 + 1);
                let ghost before = body_part_shapes(parts@);
                match recursive_parse_body(&bodies[i], child_path, tokens) {
                    Some(mut p) => {
                        let ghost got = body_part_shapes(p@);
                        parts.append(&mut p);
                        assert(body_part_shapes(parts@) =~= before + got);
                    },
                    None => {
                        assert(before + Seq::<BodyPartShape>::empty() =~= before);
                    },
                }
                i = i + 1;
            }
            if parts.len() == 0 {
                None
            } else {
                Some(parts)
            }
        },
        BodyStructure::Part { common, other } => match parse_body(segment, common, other, tokens) {
            Some(p) => {
                let mut v: Vec<EmailBodyPart> = Vec::new();
                v.push(p);
                assert(body_part_shapes(v@) =~= seq![body_part_shape(p)]);
                Some(v)
            },
            None => None,
        },
    }
}

/// Extracts attachments and text body parts from a body structure.
pub struct SectionExtractor<'a> {
    pub structure: &'a BodyStructure,
}

impl<'a> SectionExtractor<'a> {
    pub fn new(structure: &'a BodyStructure) -> (r: SectionExtractor<'a>)
        ensures
            r.structure == structure,
    {
        SectionExtractor { structure }
    }

    /// The attachments of the whole message, in document order, each with a
    /// fresh identifier; `None` when there are none.
    pub fn get_attachments<T: TokenSource>(&self, tokens: &mut T) -> (r: Option<
        Vec<ImapAttachment>,
    >)
        ensures
            opt_shapes_a(r) == attachments_spec(*self.structure, Seq::empty()),
    {
        let root = SegmentPath::new(Vec::new());
        recursive_parse_attachments(self.structure, root, tokens)
    }

    /// The plain-text and HTML parts of the whole message, in document order,
    /// each with a fresh identifier; `None` when there are none.
    pub fn get_body_parts<T: TokenSource>(&self, tokens: &mut T) -> (r: Option<
        Vec<EmailBodyPart>,
    >)
        ensures
            opt_shapes_b(r) == body_parts_spec(*self.structure, Seq::empty()),
    {
        let root = SegmentPath::new(Vec::new());
        recursive_parse_body(self.structure, root, tokens)
    }
}

} // verus!
