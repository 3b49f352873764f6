//! The image gallery cache: which parts of a message are gallery images,
//! how their inline data is decoded, and how cache entries are named.
use vstd::prelude::*;
use base64::Engine;
use crate::json::{as_str, get, get_v, items_vw, lemma_items_vw, opt_vw, str_v, Json, JsonV};
use crate::text::{
    chars_of, contains_text, contains_v, first_index, first_index_v, has_prefix_v, int_decimal_v,
    int_text, lemma_first_index, starts_with_text, str_eq, text_between,
};

verus! {

/// An image part of an assistant message: its position among the message's
/// images, its media type, and the file name and URL it carries.
pub struct GalleryPart {
    pub part_index: i32,
    pub media_type: String,
    pub filename: Option<String>,
    pub url: Option<String>,
}

pub open spec fn opt_text_v(s: Option<String>) -> Option<Seq<char>> {
    match s {
        Some(t) => Some(t@),
        None => None,
    }
}

/// The media type, file name and URL of a message part that is a file whose
/// media type mentions "image"; nothing for any other part.
pub open spec fn image_part_v(p: JsonV) -> Option<(Seq<char>, Option<Seq<char>>, Option<Seq<char>>)> {
    if str_v(get_v(p, "type"@)) == Some("file"@) {
        match str_v(get_v(p, "mediaType"@)) {
            Some(m) => if contains_v(m, "image"@) {
                Some((m, str_v(get_v(p, "filename"@)), str_v(get_v(p, "url"@))))
            } else {
                None
            },
            None => None,
        }
    } else {
        None
    }
}

/// The image parts among `items`, in order.
pub open spec fn image_parts_v(items: Seq<JsonV>) -> Seq<
    (Seq<char>, Option<Seq<char>>, Option<Seq<char>>),
>
    decreases items.len(),
{
    if items.len() == 0 {
        Seq::empty()
    } else {
        match image_part_v(items.last()) {
            Some(x) => image_parts_v(items.drop_last()).push(x),
            None => image_parts_v(items.drop_last()),
        }
    }
}

/// The gallery images of a stored message: the image parts of an assistant
/// message, none for any other message or for text that is not JSON.
pub open spec fn message_images_v(doc: Option<JsonV>) -> Seq<
    (Seq<char>, Option<Seq<char>>, Option<Seq<char>>),
> {
    match doc {
        Some(root) => if str_v(get_v(root, "role"@)) == Some("assistant"@) {
            match get_v(root, "parts"@) {
                Some(JsonV::Array(items)) => image_parts_v(items),
                _ => Seq::empty(),
            }
        } else {
            Seq::empty()
        },
        None => Seq::empty(),
    }
}

/// Whether `r` lists exactly the images `v`, numbered from 0.
pub open spec fn parts_match(r: Seq<GalleryPart>, v: Seq<(Seq<char>, Option<Seq<char>>, Option<Seq<char>>)>) -> bool {
    &&& r.len() == v.len()
    &&& forall|i: int|
        0 <= i < r.len() ==> {
            &&& (#[trigger] r[i]).part_index == i
            &&& r[i].media_type@ == v[i].0
            &&& opt_text_v(r[i].filename) == v[i].1
            &&& opt_text_v(r[i].url) == v[i].2
        }
}

fn owned_text(s: Option<&String>) -> (r: Option<String>)
    ensures
        opt_text_v(r) == match s {
            Some(t) => Some(t@),
            None => None::<Seq<char>>,
        },
{
    match s {
        Some(t) => Some(t.clone()),
        None => None,
    }
}

fn image_part(p: &Json) -> (r: Option<(String, Option<String>, Option<String>)>)
    ensures
        match r {
            Some((m, f, u)) => image_part_v(p.vw()) == Some((m@, opt_text_v(f), opt_text_v(u))),
            None => image_part_v(p.vw()) is None,
        },
{
    let is_file = match as_str(get(p, "type")) {
        Some(t) => str_eq(t.as_str(), "file"),
        None => false,
    };
    if !is_file {
        return None;
    }
    let media = match as_str(get(p, "mediaType")) {
        Some(m) => m,
        None => {
            return None;
        },
    };
    if !contains_text(media.as_str(), "image") {
        return None;
    }
    let filename = owned_text(as_str(get(p, "filename")));
    let url = owned_text(as_str(get(p, "url")));
    Some((media.clone(), filename, url))
}

/// The gallery images of a stored message (`None` when its text is not
/// JSON), numbered from 0 in the order of its parts.
pub fn extract_gallery_parts(doc: Option<Json>) -> (r: Vec<GalleryPart>)
    requires
        message_images_v(opt_vw(doc)).len() <= i32::MAX,
    ensures
        parts_match(r@, message_images_v(opt_vw(doc))),
{
    let root = match doc {
        Some(root) => root,
        None => {
            return Vec::new();
        },
    };
    let is_assistant = match as_str(get(&root, "role")) {
        Some(role) => str_eq(role.as_str(), "assistant"),
        None => false,
    };
    if !is_assistant {
        return Vec::new();
    }
    let items = match get(&root, "parts") {
        Some(Json::Array(items)) => items,
        _ => {
            return Vec::new();
        },
    };
    let ghost iv = items_vw(items@);
    proof {
        lemma_items_vw(items@);
        assert(message_images_v(opt_vw(doc)) == image_parts_v(iv));
    }
    let mut out: Vec<GalleryPart> = Vec::new();
    let mut image_index: i32 = 0;
    let mut i: usize = 0;
    while i < items.len()
        invariant
            i <= items@.len(),
            iv == items_vw(items@),
            iv.len() == items@.len(),
            forall|j: int| 0 <= j < items@.len() ==> #[trigger] iv[j] == items@[j].vw(),
            image_parts_v(iv).len() <= i32::MAX,
            parts_match(out@, image_parts_v(iv.take(i as int))),
            image_index as int == out@.len(),
        decreases items@.len() - i,
    {
        proof {
            assert(iv.take(i as int + 1).drop_last() =~= iv.take(i as int));
            assert(iv.take(i as int + 1).last() == iv[i as int]);
            lemma_image_parts_prefix_len(iv, i as int + 1);
        }
        match image_part(&items[i]) {
            Some((m, f, u)) => {
                let ghost prev = out@;
                out.push(GalleryPart { part_index: image_index, media_type: m, filename: f, url: u });
                proof {
                    assert(out@.drop_last() =~= prev);
                    assert forall|j: int| 0 <= j < out@.len() implies {
                        &&& (#[trigger] out@[j]).part_index == j
                        &&& out@[j].media_type@ == image_parts_v(iv.take(i as int + 1))[j].0
                        &&& opt_text_v(out@[j].filename) == image_parts_v(iv.take(i as int + 1))[j].1
                        &&& opt_text_v(out@[j].url) == image_parts_v(iv.take(i as int + 1))[j].2
                    } by {
                        if j < prev.len() {
                            assert(out@[j] == prev[j]);
                        }
                    }
                }
                if image_index < i32::MAX {
                    image_index = image_index + 1;
                } else {
                    proof {
                        assert(false);
                    }
                }
            },
            None => {},
        }
        i = i + 1;
    }
    proof {
        assert(iv.take(items@.len() as int) =~= iv);
    }
    out
}

proof fn lemma_image_parts_prefix_len(items: Seq<JsonV>, k: int)
    requires
        0 <= k <= items.len(),
    ensures
        image_parts_v(items.take(k)).len() <= image_parts_v(items).len(),
        image_parts_v(items.take(k)).len() <= k,
    decreases items.len() - k,
{
    if k < items.len() {
        lemma_image_parts_prefix_len(items, k + 1);
        assert(items.take(k + 1).drop_last() =~= items.take(k));
        lemma_image_parts_len(items.take(k));
    } else {
        assert(items.take(k) =~= items);
        lemma_image_parts_len(items);
    }
}

proof fn lemma_image_parts_len(items: Seq<JsonV>)
    ensures
        image_parts_v(items).len() <= items.len(),
    decreases items.len(),
{
    if items.len() > 0 {
        lemma_image_parts_len(items.drop_last());
    }
}

/// The code point of the ASCII lower-case form of a character.
pub open spec fn ascii_lower_code(c: char) -> u32 {
    if 'A' <= c && c <= 'Z' {
        ((c as u32) + 32) as u32
    } else {
        c as u32
    }
}

/// The code points of `s.to_ascii_lowercase()`.
pub open spec fn ascii_lower_v(s: Seq<char>) -> Seq<u32> {
    s.map_values(|c: char| ascii_lower_code(c))
}

/// The code points of `s`.
pub open spec fn codes_v(s: Seq<char>) -> Seq<u32> {
    s.map_values(|c: char| c as u32)
}

/// The file extension for a media type, compared without regard to ASCII
/// case.
pub open spec fn extension_v(mime: Seq<char>) -> &'static str {
    let m = ascii_lower_v(mime);
    if m == codes_v("image/png"@) {
        "png"
    } else if m == codes_v("image/jpeg"@) || m == codes_v("image/jpg"@) {
        "jpg"
    } else if m == codes_v("image/webp"@) {
        "webp"
    } else if m == codes_v("image/gif"@) {
        "gif"
    } else {
        "bin"
    }
}

fn lower_eq(cs: &Vec<char>, lit: &str) -> (r: bool)
    ensures
        r == (ascii_lower_v(cs@) == codes_v(lit@)),
{
    let cl = chars_of(lit);
    if cs.len() != cl.len() {
        return false;
    }
    let mut i: usize = 0;
    while i < cs.len()
        invariant
            cl@ == lit@,
            cs@.len() == cl@.len(),
            i <= cs@.len(),
            forall|j: int| 0 <= j < i ==> ascii_lower_code(cs@[j]) == (cl@[j] as u32),
        decreases cs@.len() - i,
    {
        let c = cs[i];
        let lc: u32 = if 'A' <= c && c <= 'Z' {
            (c as u32) + 32
        } else {
            c as u32
        };
        if lc != (cl[i] as u32) {
            assert(ascii_lower_v(cs@)[i as int] != codes_v(lit@)[i as int]);
            return false;
        }
        i = i + 1;
    }
    assert(ascii_lower_v(cs@) =~= codes_v(lit@));
    true
}

/// The extension an image of media type `mime` is cached under.
pub fn mime_to_extension(mime: &str) -> (r: &'static str)
    ensures
        r == extension_v(mime@),
{
    let cs = chars_of(mime);
    if lower_eq(&cs, "image/png") {
        "png"
    } else if lower_eq(&cs, "image/jpeg") || lower_eq(&cs, "image/jpg") {
        "jpg"
    } else if lower_eq(&cs, "image/webp") {
        "webp"
    } else if lower_eq(&cs, "image/gif") {
        "gif"
    } else {
        "bin"
    }
}

/// The media type and the payload of a `data:<mime>;base64,<payload>` URL:
/// the header runs to the first comma.
pub open spec fn data_url_parts_v(url: Seq<char>) -> Option<(Seq<char>, Seq<char>)> {
    if has_prefix_v(url, "data:"@) && first_index_v(url, ',') >= 0 {
        let header = url.take(first_index_v(url, ','));
        let rest = header.skip(5);
        if rest.len() >= 7 && rest.skip(rest.len() - 7) == ";base64"@ {
            Some((rest.take(rest.len() - 7), url.skip(first_index_v(url, ',') + 1)))
        } else {
            None
        }
    } else {
        None
    }
}

/// The media type and the still encoded payload of a base64 data URL.
pub fn data_url_parts(url: &str) -> (r: Option<(String, String)>)
    ensures
        match r {
            Some((m, p)) => data_url_parts_v(url@) == Some((m@, p@)),
            None => data_url_parts_v(url@) is None,
        },
{
    if !starts_with_text(url, "data:") {
        return None;
    }
    let cs = chars_of(url);
    proof {
        lemma_first_index(url@, ',');
    }
    let comma = match first_index(&cs, ',') {
        Some(i) => i,
        None => {
            return None;
        },
    };
    proof {
        reveal_strlit("data:");
        assert(url@.take(5) == "data:"@);
        assert forall|j: int| 0 <= j < 5 implies url@[j] != ',' by {
            assert(url@[j] == url@.take(5)[j]);
        }
        assert(comma >= 5);
    }
    let header_len: usize = comma - 5;
    if header_len < 7 {
        return None;
    }
    let suffix = text_between(&cs, comma - 7, comma);
    if !str_eq(suffix.as_str(), ";base64") {
        proof {
            let header = url@.take(comma as int);
            let rest = header.skip(5);
            assert(rest.skip(rest.len() - 7) =~= cs@.subrange(comma - 7, comma as int));
        }
        return None;
    }
    let mime = text_between(&cs, 5, comma - 7);
    let payload = text_between(&cs, comma + 1, cs.len());
    proof {
        let header = url@.take(comma as int);
        let rest = header.skip(5);
        assert(rest.skip(rest.len() - 7) =~= cs@.subrange(comma - 7, comma as int));
        assert(rest.take(rest.len() - 7) =~= cs@.subrange(5, comma - 7));
        assert(url@.skip(comma + 1) =~= cs@.subrange(comma + 1, cs@.len() as int));
    }
    Some((mime, payload))
}

/// What the standard base64 alphabet, with padding, decodes `text` to;
/// `None` when `text` is not such an encoding.
pub uninterp spec fn standard_base64_decoded(text: Seq<char>) -> Option<Seq<u8>>;

/// The width and height that the image header at the start of `bytes`
/// declares; `None` when no supported format is recognised.
pub uninterp spec fn blob_dimensions(bytes: Seq<u8>) -> Option<(usize, usize)>;

pub open spec fn opt_bytes_v(b: Option<Vec<u8>>) -> Option<Seq<u8>> {
    match b {
        Some(v) => Some(v@),
        None => None,
    }
}

/// `base64::engine::general_purpose::STANDARD.decode(text).ok()`: the bytes
/// `text` encodes in the standard alphabet with padding. Its result depends on
/// `text` alone; what the decoding is, is the base64 crate's and is not
/// restated here.
#[verifier::external_body]
fn base64_decode(text: &str) -> (r: Option<Vec<u8>>)
    ensures
        opt_bytes_v(r) == standard_base64_decoded(text@),
{
    base64::engine::general_purpose::STANDARD.decode(text).ok()
}

/// `imagesize::blob_size(bytes).ok()`, as (width, height): the dimensions the
/// header of `bytes` declares. Its result depends on `bytes` alone; which
/// formats are read, and how, is the imagesize crate's and is not restated
/// here.
#[verifier::external_body]
fn image_dimensions(bytes: &[u8]) -> (r: Option<(usize, usize)>)
    ensures
        r == blob_dimensions(bytes@),
{
    match imagesize::blob_size(bytes) {
        Ok(dim) => Some((dim.width, dim.height)),
        Err(_) => None,
    }
}

/// The inline image of a data URL: its media type and its decoded bytes.
pub fn parse_data_url(url: &str) -> (r: Option<(String, Vec<u8>)>)
    ensures
        match data_url_parts_v(url@) {
            Some((m, p)) => match standard_base64_decoded(p) {
                Some(b) => r matches Some((rm, rb)) && rm@ == m && rb@ == b,
                None => r is None,
            },
            None => r is None,
        },
{
    let (mime, payload) = match data_url_parts(url) {
        Some(x) => x,
        None => {
            return None;
        },
    };
    match base64_decode(payload.as_str()) {
        Some(bytes) => Some((mime, bytes)),
        None => None,
    }
}

/// The stored width and height of an image whose header declares `dims`:
/// each converted to `i32` as `as` converts it, nothing when there are none.
pub fn stored_dimensions(dims: Option<(usize, usize)>) -> (r: (Option<i32>, Option<i32>))
    ensures
        match dims {
            Some((w, h)) => r == (Some(w as i32), Some(h as i32)),
            None => r == (None::<i32>, None::<i32>),
        },
{
    match dims {
        Some((w, h)) => (Some(w as i32), Some(h as i32)),
        None => (None, None),
    }
}

/// An inline image: its media type, its bytes and the dimensions stored for
/// it.
pub struct DecodedImage {
    pub mime: String,
    pub bytes: Vec<u8>,
    pub width: Option<i32>,
    pub height: Option<i32>,
}

/// The image an image part's URL carries inline; nothing when there is no
/// URL or it is not a base64 data URL that decodes.
pub fn decode_part_image(url: Option<&str>) -> (r: Option<DecodedImage>)
    ensures
        match url {
            None => r is None,
            Some(u) => match data_url_parts_v(u@) {
                Some((m, p)) => match standard_base64_decoded(p) {
                    Some(b) => r matches Some(img) && img.mime@ == m && img.bytes@ == b && match blob_dimensions(b) {
                        Some((w, h)) => img.width == Some(w as i32) && img.height == Some(h as i32),
                        None => img.width is None && img.height is None,
                    },
                    None => r is None,
                },
                None => r is None,
            },
        },
{
    let u = match url {
        Some(u) => u,
        None => {
            return None;
        },
    };
    let (mime, bytes) = match parse_data_url(u) {
        Some(x) => x,
        None => {
            return None;
        },
    };
    let dims = image_dimensions(bytes.as_slice());
    let (width, height) = stored_dimensions(dims);
    Some(DecodedImage { mime, bytes, width, height })
}

/// The id of a message's image: `<message id>-<part index>`.
pub fn gallery_image_id(message_id: &str, part_index: i32) -> (r: String)
    ensures
        r@ == message_id@ + "-"@ + int_decimal_v(part_index as int),
{
    let n = int_text(part_index as i64);
    message_id.to_owned().concat("-").concat(n.as_str())
}

/// The name of an image's cache file: `<id>.<extension>`, the extension taken
/// from the part's media type, or from the URL's when the part has none.
pub fn gallery_file_name(gallery_id: &str, media_type: &str, url_mime: &str) -> (r: String)
    ensures
        r@ == gallery_id@ + "."@ + (if media_type@.len() == 0 {
            extension_v(url_mime@)
        } else {
            extension_v(media_type@)
        })@,
{
    let ext = if media_type.unicode_len() == 0 {
        mime_to_extension(url_mime)
    } else {
        mime_to_extension(media_type)
    };
    gallery_id.to_owned().concat(".").concat(ext)
}

/// The image numbered `part_index` among `parts`, the first if several are.
pub fn find_part(parts: &Vec<GalleryPart>, part_index: i32) -> (r: Option<usize>)
    ensures
        match r {
            Some(i) => i < parts@.len() && parts@[i as int].part_index == part_index && forall|j: int|
                0 <= j < i ==> #[trigger] parts@[j].part_index != part_index,
            None => forall|j: int| 0 <= j < parts@.len() ==> #[trigger] parts@[j].part_index != part_index,
        },
{
    let mut i: usize = 0;
    while i < parts.len()
        invariant
            i <= parts@.len(),
            forall|j: int| 0 <= j < i ==> #[trigger] parts@[j].part_index != part_index,
        decreases parts@.len() - i,
    {
        if parts[i].part_index == part_index {
            return Some(i);
        }
        i = i + 1;
    }
    None
}

/// What making the gallery cache ready does.
pub enum GalleryCacheStep {
    /// There is no gallery table: nothing is done, and the answer is no.
    NoTable,
    /// The cache has entries: their missing metadata is filled in, and the
    /// answer is whether any was.
    Backfill,
    /// The cache is empty: it is rebuilt from the messages, and the answer is
    /// yes.
    Rebuild,
}

/// The step that makes the gallery cache ready, from whether its table exists
/// and how many entries it has.
pub fn gallery_cache_step(has_table: bool, entries: i64) -> (r: GalleryCacheStep)
    ensures
        !has_table ==> r is NoTable,
        has_table && entries > 0 ==> r is Backfill,
        has_table && entries <= 0 ==> r is Rebuild,
{
    if !has_table {
        GalleryCacheStep::NoTable
    } else if entries > 0 {
        GalleryCacheStep::Backfill
    } else {
        GalleryCacheStep::Rebuild
    }
}

/// The page of the gallery listing: the limit, if any, and the offset, both
/// raised to at least 0; a missing offset is 0.
pub fn gallery_page(limit: Option<i32>, offset: Option<i32>) -> (r: (Option<i32>, i32))
    ensures
        r.0 == match limit {
            Some(l) => Some(if l < 0 { 0i32 } else { l }),
            None => None::<i32>,
        },
        r.1 == match offset {
            Some(o) => if o < 0 { 0i32 } else { o },
            None => 0i32,
        },
{
    let o = match offset {
        Some(o) => if o < 0 { 0 } else { o },
        None => 0,
    };
    let l = match limit {
        Some(l) => Some(if l < 0 { 0 } else { l }),
        None => None,
    };
    (l, o)
}

} // verus!
