//! The media encoder: classifies a source as remote URL or local file,
//! validates a local file's size and extension, and turns its bytes into a
//! `data:` URL content part. Reading the filesystem is the caller's side;
//! this module receives what the probe found as plain values and is
//! otherwise pure. The base64 encoding itself is the one outside call,
//! behind a trusted wrapper.
use vstd::prelude::*;

use crate::errors::{MediaKind, VisionError};
use crate::text::{
    lemma_after_last_absent, lemma_after_last_at, spec_after_last, spec_lower,
};
use crate::types::{
    is_url, spec_image_mime, spec_is_url, spec_video_mime, image_mime_type, video_mime_type,
    ContentPart, UrlHolder,
};

verus! {

/// What probing a local path found: nothing, or the file's metadata length
/// together with its bytes.
#[derive(Debug, Clone)]
pub enum MediaProbe {
    Missing,
    Found { len: u64, bytes: Vec<u8> },
}

/// The base64 encoding (standard alphabet, padded) of a byte sequence.
pub uninterp spec fn base64_of(bytes: Seq<u8>) -> Seq<char>;

/// Relies on `base64::Engine::encode` with the `STANDARD` engine: the result
/// is a function of the input bytes alone, and its length is four characters
/// for every three input bytes, rounded up (padded output).
#[verifier::external_body]
fn base64_encode(data: &[u8]) -> (r: String)
    requires
        data@.len() <= usize::MAX as nat / 2,
    ensures
        r@ == base64_of(data@),
        r@.len() == 4 * ((data@.len() + 2) / 3),
{
    base64::Engine::encode(&base64::engine::general_purpose::STANDARD, data)
}

/// The extension of the final path component: what follows its last dot,
/// provided that dot is not the component's first character; empty
/// otherwise.
pub open spec fn spec_extension(s: Seq<char>) -> Seq<char> {
    let name = spec_after_last(s, '/');
    if exists|i: int| 1 <= i < name.len() && name[i] == '.' {
        spec_after_last(name, '.')
    } else {
        Seq::empty()
    }
}

/// Derives the file extension of `source`, in its original case.
pub fn file_extension(source: &str) -> (r: String)
    ensures
        r@ == spec_extension(source@),
{
    let n = source.unicode_len();
    let mut name_start: usize = 0;
    let mut k: usize = 0;
    while k < n
        invariant
            n == source@.len(),
            name_start <= k <= n,
            name_start == 0 || source@[name_start - 1] == '/',
            forall|j: int| name_start <= j < k ==> source@[j] != '/',
        decreases n - k,
    {
        if source.get_char(k) == '/' {
            name_start = k + 1;
        }
        k += 1;
    }
    proof {
        if name_start == 0 {
            lemma_after_last_absent(source@, '/');
        } else {
            lemma_after_last_at(source@, '/', name_start - 1);
        }
        assert(spec_after_last(source@, '/') =~= source@.subrange(
            name_start as int,
            n as int,
        ));
    }
    let ghost name = spec_after_last(source@, '/');
    let mut dot: usize = 0;
    let mut has_dot: bool = false;
    let mut m: usize = name_start;
    while m < n
        invariant
            n == source@.len(),
            name_start <= m <= n,
            has_dot ==> name_start < dot < m && source@[dot as int] == '.',
            has_dot ==> forall|j: int| dot < j < m ==> source@[j] != '.',
            !has_dot ==> forall|j: int| name_start < j < m ==> source@[j] != '.',
        decreases n - m,
    {
        if m > name_start && source.get_char(m) == '.' {
            dot = m;
            has_dot = true;
        }
        m += 1;
    }
    if has_dot {
        proof {
            let di = dot - name_start;
            assert(name[di] == source@[dot as int]);
            assert(1 <= di < name.len() && name[di] == '.');
            assert(forall|j: int|
                di < j < name.len() ==> name[j] == source@[name_start + j] && name[j] != '.');
            lemma_after_last_at(name, '.', di);
            assert(name.subrange(di + 1, name.len() as int) =~= source@.subrange(
                dot + 1,
                n as int,
            ));
        }
        let ext = source.substring_char(dot + 1, n);
        ext.to_owned()
    } else {
        proof {
            assert(forall|i: int|
                1 <= i < name.len() ==> name[i] == source@[name_start + i] && name[i] != '.');
        }
        String::new()
    }
}

/// The per-kind extension table.
pub open spec fn spec_media_mime(kind: MediaKind, ext_lower: Seq<char>) -> Option<Seq<char>> {
    match kind {
        MediaKind::Image => spec_image_mime(ext_lower),
        MediaKind::Video => spec_video_mime(ext_lower),
    }
}

/// Resolves an extension against the table of the given kind.
pub fn media_mime_type(kind: MediaKind, ext: &str) -> (r: Option<&'static str>)
    ensures
        match spec_media_mime(kind, spec_lower(ext@)) {
            Some(m) => r matches Some(s) && s@ == m,
            None => r is None,
        },
{
    match kind {
        MediaKind::Image => image_mime_type(ext),
        MediaKind::Video => video_mime_type(ext),
    }
}

/// The URL a local file is embedded under: its MIME type and base64 payload
/// in a `data:` URL.
pub open spec fn spec_data_url(mime: Seq<char>, payload: Seq<char>) -> Seq<char> {
    "data:"@ + mime + ";base64,"@ + payload
}

/// Holds when `p` is the content part of the given kind carrying `url`.
pub open spec fn spec_part_with_url(kind: MediaKind, url: Seq<char>, p: ContentPart) -> bool {
    match kind {
        MediaKind::Image => p matches ContentPart::ImageUrl { image_url } && image_url.url@
            == url,
        MediaKind::Video => p matches ContentPart::VideoUrl { video_url } && video_url.url@
            == url,
    }
}

/// Wraps a remote URL verbatim in a content part of the given kind.
pub fn url_media_part(kind: MediaKind, source: &str) -> (r: ContentPart)
    ensures
        spec_part_with_url(kind, source@, r),
{
    match kind {
        MediaKind::Image => ContentPart::ImageUrl {
            image_url: UrlHolder { url: source.to_owned() },
        },
        MediaKind::Video => ContentPart::VideoUrl {
            video_url: UrlHolder { url: source.to_owned() },
        },
    }
}

/// Validates a local file's size and extension; on success returns the MIME
/// type. Size is measured in whole megabytes (integer division of the byte
/// length), and a file whose truncated MB size exceeds `max_mb` is rejected
/// before the extension is looked at.
pub fn validate_local_media(kind: MediaKind, source: &str, len: u64, max_mb: u64) -> (r: Result<
    &'static str,
    VisionError,
>)
    ensures
        len / 1048576 > max_mb ==> (r matches Err(e) && e matches VisionError::TooLarge {
            kind: k,
            size_mb,
            max_mb: m,
        } && k == kind && size_mb == len / 1048576 && m == max_mb),
        len / 1048576 <= max_mb ==> match spec_media_mime(
            kind,
            spec_lower(spec_extension(source@)),
        ) {
            Some(mime) => r matches Ok(s) && s@ == mime,
            None => r matches Err(e) && e matches VisionError::UnsupportedFormat {
                kind: k,
                ext,
            } && k == kind && ext@ == spec_extension(source@),
        },
{
    let size_mb = len / 1048576;
    if size_mb > max_mb {
        return Err(VisionError::TooLarge { kind, size_mb, max_mb });
    }
    let ext = file_extension(source);
    match media_mime_type(kind, ext.as_str()) {
        Some(mime) => Ok(mime),
        None => Err(VisionError::UnsupportedFormat { kind, ext }),
    }
}

/// Builds the `data:` URL content part for a validated local file.
pub fn local_media_part(kind: MediaKind, mime: &str, bytes: &[u8]) -> (r: ContentPart)
    requires
        bytes@.len() <= usize::MAX as nat / 2,
    ensures
        spec_part_with_url(kind, spec_data_url(mime@, base64_of(bytes@)), r),
{
    let b64 = base64_encode(bytes);
    let mut url = "data:".to_owned();
    url.append(mime);
    url.append(";base64,");
    url.append(b64.as_str());
    proof {
        assert(url@ =~= spec_data_url(mime@, base64_of(bytes@)));
    }
    match kind {
        MediaKind::Image => ContentPart::ImageUrl { image_url: UrlHolder { url } },
        MediaKind::Video => ContentPart::VideoUrl { video_url: UrlHolder { url } },
    }
}

/// The encoder's whole contract: what `r` must be for the given source,
/// probe and size ceiling. A source with an HTTP or HTTPS scheme passes
/// through verbatim whatever the probe holds — a remote source involves no
/// filesystem at all. Everything else is treated as a local path: a missing
/// file, an oversized file and an unknown extension fail in that order, and
/// otherwise the file's bytes are embedded as a `data:` URL.
pub open spec fn spec_encode_outcome(
    kind: MediaKind,
    source: Seq<char>,
    probe: MediaProbe,
    max_mb: u64,
    r: Result<ContentPart, VisionError>,
) -> bool {
    &&& spec_is_url(source) ==> (r matches Ok(p) && spec_part_with_url(kind, source, p))
    &&& !spec_is_url(source) ==> match probe {
        MediaProbe::Missing => r matches Err(e) && e matches VisionError::NotFound {
            kind: k,
            source: s,
        } && k == kind && s@ == source,
        MediaProbe::Found { len, bytes } => {
            &&& len / 1048576 > max_mb ==> (r matches Err(e) && e matches VisionError::TooLarge {
                kind: k,
                size_mb,
                max_mb: m,
            } && k == kind && size_mb == len / 1048576 && m == max_mb)
            &&& len / 1048576 <= max_mb ==> match spec_media_mime(
                kind,
                spec_lower(spec_extension(source)),
            ) {
                Some(mime) => r matches Ok(p) && spec_part_with_url(
                    kind,
                    spec_data_url(mime, base64_of(bytes@)),
                    p,
                ),
                None => r matches Err(e) && e matches VisionError::UnsupportedFormat {
                    kind: k,
                    ext,
                } && k == kind && ext@ == spec_extension(source),
            }
        },
    }
}

/// Encodes one media source into a content part, as `spec_encode_outcome`
/// prescribes.
pub fn encode_media(kind: MediaKind, source: &str, probe: &MediaProbe, max_mb: u64) -> (r: Result<
    ContentPart,
    VisionError,
>)
    requires
        probe matches MediaProbe::Found { bytes, .. } ==> bytes@.len() <= usize::MAX as nat / 2,
    ensures
        spec_encode_outcome(kind, source@, *probe, max_mb, r),
{
    if is_url(source) {
        return Ok(url_media_part(kind, source));
    }
    match probe {
        MediaProbe::Missing => Err(VisionError::NotFound { kind, source: source.to_owned() }),
        MediaProbe::Found { len, bytes } => {
            let mime = validate_local_media(kind, source, *len, max_mb)?;
            Ok(local_media_part(kind, mime, bytes.as_slice()))
        },
    }
}

} // verus!
