//! The loader: which MIME type a request names, and what a failed load
//! reports.
use crate::decode::{DecodeError, DecodeSession, DecodeStage, Frame};
use crate::mime_table::{table_entries, table_get, table_insert, table_keys, table_new, MimeTable};
use bevy_asset::RenderAssetUsages;
use bevy_image::ImageSampler;
use vstd::prelude::*;

verus! {

#[verifier::external_type_specification]
#[verifier::external_body]
pub struct ExImageSampler(ImageSampler);

#[verifier::external_type_specification]
#[verifier::external_body]
pub struct ExRenderAssetUsages(RenderAssetUsages);

/// Relies on `ImageSampler`'s `Default`: the sampler that the image plugin
/// is set up with.
#[verifier::external_body]
fn default_sampler() -> ImageSampler {
    ImageSampler::default()
}

/// Relies on `RenderAssetUsages`'s `Default`: kept in the main world and in
/// the render world.
#[verifier::external_body]
fn default_asset_usage() -> RenderAssetUsages {
    RenderAssetUsages::default()
}

/// `c` with `A` to `Z` taken to `a` to `z`.
pub open spec fn ascii_lower_char(c: char) -> char {
    if 'A' <= c && c <= 'Z' {
        ((c as u32) + 32) as char
    } else {
        c
    }
}

/// `s` with its ASCII capitals made small.
pub open spec fn ascii_lower(s: Seq<char>) -> Seq<char> {
    s.map_values(|c: char| ascii_lower_char(c))
}

/// Relies on `str::to_ascii_lowercase`: `A` to `Z` become `a` to `z`, every
/// other char stays as it is.
#[verifier::external_body]
fn to_ascii_lowercase(s: &str) -> (r: String)
    ensures
        r@ == ascii_lower(s@),
{
    s.to_ascii_lowercase()
}

/// Where `c` last stands in `s`, or `-1` where it does not.
pub open spec fn last_index_of(s: Seq<char>, c: char) -> int
    decreases s.len(),
{
    if s.len() == 0 {
        -1
    } else if s.last() == c {
        s.len() - 1
    } else {
        last_index_of(s.drop_last(), c)
    }
}

/// The last `/`-separated segment of a path.
pub open spec fn file_name_of(path: Seq<char>) -> Seq<char> {
    path.subrange(last_index_of(path, '/') + 1, path.len() as int)
}

/// The extension of a path: what follows the last `.` of its file name. A
/// file name with no `.`, or whose only `.` opens it (`.hidden`), has none,
/// and the extension is then empty.
pub open spec fn extension_of(path: Seq<char>) -> Seq<char> {
    let name = file_name_of(path);
    let dot = last_index_of(name, '.');
    if dot <= 0 {
        Seq::empty()
    } else {
        name.subrange(dot + 1, name.len() as int)
    }
}

proof fn lemma_last_index_bounds(s: Seq<char>, c: char)
    ensures
        -1 <= last_index_of(s, c) < s.len(),
        last_index_of(s, c) >= 0 ==> s[last_index_of(s, c)] == c,
    decreases s.len(),
{
    if s.len() > 0 && s.last() != c {
        lemma_last_index_bounds(s.drop_last(), c);
    }
}

/// Where `c` last stands in `s`.
fn last_index(s: &str, c: char) -> (r: Option<usize>)
    ensures
        match r {
            Some(k) => k == last_index_of(s@, c),
            None => last_index_of(s@, c) == -1,
        },
{
    let n: usize = s.unicode_len();
    let mut i: usize = n;
    assert(s@.subrange(0, n as int) =~= s@);
    while i > 0
        invariant
            i <= n,
            n == s@.len(),
            last_index_of(s@.subrange(0, i as int), c) == last_index_of(s@, c),
        decreases i,
    {
        let ch = s.get_char(i - 1);
        if ch == c {
            return Some(i - 1);
        }
        assert(s@.subrange(0, i as int).drop_last() =~= s@.subrange(0, i - 1));
        i = i - 1;
    }
    None
}

/// The extension of `path`, as `extension_of` says.
pub fn path_extension(path: &str) -> (r: &str)
    ensures
        r@ == extension_of(path@),
{
    let n: usize = path.unicode_len();
    proof {
        lemma_last_index_bounds(path@, '/');
    }
    let start: usize = match last_index(path, '/') {
        Some(k) => k + 1,
        None => 0,
    };
    let name = path.substring_char(start, n);
    proof {
        lemma_last_index_bounds(name@, '.');
    }
    match last_index(name, '.') {
        Some(d) => {
            if d == 0 {
                let e = "";
                proof {
                    reveal_strlit("");
                }
                assert(e@ =~= Seq::<char>::empty());
                e
            } else {
                let m: usize = name.unicode_len();
                name.substring_char(d + 1, m)
            }
        },
        None => {
            let e = "";
            proof {
                reveal_strlit("");
            }
            assert(e@ =~= Seq::<char>::empty());
            e
        },
    }
}

/// How a load request names its image format.
#[derive(Debug, Clone)]
pub enum ImageFormatSetting {
    /// Look the path's extension up in the loader's table.
    FromExtension,
    /// Take this MIME type as it is.
    MimeType(String),
}

impl Default for ImageFormatSetting {
    fn default() -> (r: Self)
        ensures
            r is FromExtension,
    {
        ImageFormatSetting::FromExtension
    }
}

/// The settings of one load. The sampler and the usage flags are handed on
/// to the texture untouched.
pub struct ImageLoaderSettings {
    pub format: ImageFormatSetting,
    pub sampler: ImageSampler,
    pub asset_usage: RenderAssetUsages,
}

impl Default for ImageLoaderSettings {
    fn default() -> (r: Self)
        ensures
            r.format is FromExtension,
    {
        ImageLoaderSettings {
            format: ImageFormatSetting::FromExtension,
            sampler: default_sampler(),
            asset_usage: default_asset_usage(),
        }
    }
}

/// What was wrong with an image file.
#[derive(Debug)]
pub enum TextureError {
    /// The extension is not in the loader's table.
    InvalidImageExtension(String),
    /// No available decoder takes the MIME type.
    InvalidImageMimeType(String),
    /// The browser could not decode the payload.
    TranscodeError(String),
}

/// An error of one image file, with the file's path.
#[derive(Debug)]
pub struct FileTextureError {
    pub error: TextureError,
    pub path: String,
}

/// Why a load failed.
#[derive(Debug)]
pub enum WebImageLoaderError {
    /// The payload could not be read; the reader's message.
    Io(String),
    /// The file could not be made into a texture.
    FileTexture(FileTextureError),
}

impl FileTextureError {
    /// The loader's error for a failed decode of the file at `path`: an
    /// unsupported MIME type becomes `InvalidImageMimeType`, a failed
    /// transcode stays a `TranscodeError` with its message.
    pub fn from_decode_error(e: DecodeError, path: &str) -> (r: FileTextureError)
        ensures
            r.path@ == path@,
            match e {
                DecodeError::UnsupportedMimeType(m) => r.error matches TextureError::InvalidImageMimeType(n)
                    && n@ == m@,
                DecodeError::TranscodeError(m) => r.error matches TextureError::TranscodeError(n) && n@
                    == m@,
            },
    {
        let error = match e {
            DecodeError::UnsupportedMimeType(m) => TextureError::InvalidImageMimeType(m),
            DecodeError::TranscodeError(m) => TextureError::TranscodeError(m),
        };
        FileTextureError { error, path: path.to_owned() }
    }
}

/// The extension-to-MIME table that a loader starts with: the formats that
/// browsers decode. SVG is in it and goes to the browser's rasterizer, since
/// `ImageDecoder` does not take it.
pub open spec fn default_entries() -> Map<Seq<char>, Seq<char>> {
    map![
        "jpg"@ => "image/jpeg"@,
        "jpeg"@ => "image/jpeg"@,
        "png"@ => "image/png"@,
        "gif"@ => "image/gif"@,
        "webp"@ => "image/webp"@,
        "svg"@ => "image/svg+xml"@,
        "bmp"@ => "image/bmp"@,
        "avif"@ => "image/avif"@,
    ]
}

/// Loads the images that a browser can decode.
pub struct WebImageLoader {
    mime_types: MimeTable,
    extensions: Vec<&'static str>,
}

impl WebImageLoader {
    /// The loader lists each extension of its table once, and no other.
    #[verifier::type_invariant]
    closed spec fn lists_its_keys(&self) -> bool {
        &&& self.extensions@.map_values(|k: &'static str| k@).no_duplicates()
        &&& self.extensions@.map_values(|k: &'static str| k@).to_set() == table_entries(
            self.mime_types,
        ).dom()
    }

    /// The loader's table, from extension to MIME type.
    pub closed spec fn entries(&self) -> Map<Seq<char>, Seq<char>> {
        table_entries(self.mime_types)
    }

    /// A loader over the given table.
    pub fn new(mime_types: MimeTable) -> (r: Self)
        ensures
            r.entries() == table_entries(mime_types),
    {
        let extensions = table_keys(&mime_types);
        WebImageLoader { mime_types, extensions }
    }

    /// The table of `default_entries`.
    pub fn supported_mime_types() -> (r: MimeTable)
        ensures
            table_entries(r) == default_entries(),
    {
        let mut mime_types = table_new();
        table_insert(&mut mime_types, "jpg", "image/jpeg");
        table_insert(&mut mime_types, "jpeg", "image/jpeg");
        table_insert(&mut mime_types, "png", "image/png");
        table_insert(&mut mime_types, "gif", "image/gif");
        table_insert(&mut mime_types, "webp", "image/webp");
        table_insert(&mut mime_types, "svg", "image/svg+xml");
        table_insert(&mut mime_types, "bmp", "image/bmp");
        table_insert(&mut mime_types, "avif", "image/avif");
        assert(table_entries(mime_types) =~= default_entries());
        mime_types
    }

    /// The extensions this loader takes: each key of its table, once.
    pub fn extensions(&self) -> (r: &[&'static str])
        ensures
            r@.map_values(|k: &'static str| k@).no_duplicates(),
            r@.map_values(|k: &'static str| k@).to_set() == self.entries().dom(),
    {
        proof {
            use_type_invariant(self);
        }
        self.extensions.as_slice()
    }

    /// The MIME type that a load of `path` with `format` decodes as. An
    /// explicit MIME type is taken as it is; otherwise the path's extension,
    /// in small letters, is looked up, and one that the table lacks is an
    /// `InvalidImageExtension` error.
    pub fn resolve_mime_type(&self, path: &str, format: &ImageFormatSetting) -> (r: Result<
        String,
        FileTextureError,
    >)
        ensures
            match format {
                ImageFormatSetting::MimeType(s) => r matches Ok(m) && m@ == s@,
                ImageFormatSetting::FromExtension => {
                    let ext = ascii_lower(extension_of(path@));
                    if self.entries().contains_key(ext) {
                        r matches Ok(m) && m@ == self.entries()[ext]
                    } else {
                        r matches Err(e) && e.path@ == path@ && (
                        e.error matches TextureError::InvalidImageExtension(x) && x@ == ext)
                    }
                },
            },
    {
        match format {
            ImageFormatSetting::MimeType(s) => Ok(s.clone()),
            ImageFormatSetting::FromExtension => {
                let ext = to_ascii_lowercase(path_extension(path));
                match table_get(&self.mime_types, ext.as_str()) {
                    Some(m) => Ok(m.to_owned()),
                    None => Err(
                        FileTextureError {
                            error: TextureError::InvalidImageExtension(ext),
                            path: path.to_owned(),
                        },
                    ),
                }
            },
        }
    }

    /// The outcome of a decode that has ended, for the file at `path`: its
    /// frame, or the loader's error for the decode's failure.
    pub fn finish_load(&self, session: DecodeSession, path: &str) -> (r: Result<
        Frame,
        WebImageLoaderError,
    >)
        requires
            session.stage is Done || session.stage is Failed,
        ensures
            match session.stage {
                DecodeStage::Done(f) => r matches Ok(g) && g == f,
                DecodeStage::Failed(e) => r matches Err(WebImageLoaderError::FileTexture(t))
                    && t.path@ == path@ && (match e {
                    DecodeError::UnsupportedMimeType(m) => t.error matches TextureError::InvalidImageMimeType(n)
                        && n@ == m@,
                    DecodeError::TranscodeError(m) => t.error matches TextureError::TranscodeError(n)
                        && n@ == m@,
                }),
                _ => false,
            },
    {
        match session.into_result() {
            Some(Ok(f)) => Ok(f),
            Some(Err(e)) => Err(
                WebImageLoaderError::FileTexture(FileTextureError::from_decode_error(e, path)),
            ),
            None => {
                assert(false);
                Err(WebImageLoaderError::Io(String::new()))
            },
        }
    }
}

impl Default for WebImageLoader {
    fn default() -> (r: Self)
        ensures
            r.entries() == default_entries(),
    {
        WebImageLoader::new(WebImageLoader::supported_mime_types())
    }
}

proof fn lemma_last_index_skips(a: Seq<char>, b: Seq<char>, c: char)
    requires
        !b.contains(c),
    ensures
        last_index_of(a + b, c) == last_index_of(a, c),
    decreases b.len(),
{
    if b.len() > 0 {
        assert((a + b).drop_last() =~= a + b.drop_last());
        assert((a + b).last() == b[b.len() - 1]);
        assert(!b.drop_last().contains(c)) by {
            if b.drop_last().contains(c) {
                let i = choose|i: int| 0 <= i < b.drop_last().len() && b.drop_last()[i] == c;
                assert(b[i] == c);
            }
        }
        lemma_last_index_skips(a, b.drop_last(), c);
    } else {
        assert(a + b =~= a);
    }
}

/// A path made of a file stem, a `.` and an extension of the table (small
/// letters, no `.` or `/`, as the table's keys are) has that extension: a
/// load of it that takes the format from the extension decodes as the
/// table's MIME type for it.
pub proof fn lemma_format_routing(loader: WebImageLoader, stem: Seq<char>, ext: Seq<char>)
    requires
        loader.entries().contains_key(ext),
        !ext.contains('.'),
        !ext.contains('/'),
        forall|i: int| 0 <= i < ext.len() ==> !('A' <= #[trigger] ext[i] && ext[i] <= 'Z'),
        stem.len() > 0,
        stem.last() != '/',
    ensures
        ascii_lower(extension_of(stem + seq!['.'] + ext)) == ext,
        loader.entries().contains_key(ascii_lower(extension_of(stem + seq!['.'] + ext))),
{
    let path = stem + seq!['.'] + ext;
    assert(path =~= stem + (seq!['.'] + ext));
    assert(!(seq!['.'] + ext).contains('/')) by {
        if (seq!['.'] + ext).contains('/') {
            let i = choose|i: int| 0 <= i < (seq!['.'] + ext).len() && (seq!['.'] + ext)[i] == '/';
            if i > 0 {
                assert(ext[i - 1] == '/');
            }
        }
    }
    lemma_last_index_skips(stem, seq!['.'] + ext, '/');
    let sl = last_index_of(stem, '/');
    lemma_last_index_bounds(stem, '/');
    assert(sl < stem.len() - 1);
    let name0 = stem.subrange(sl + 1, stem.len() as int);
    let name = file_name_of(path);
    assert(name =~= name0.push('.') + ext);
    lemma_last_index_skips(name0.push('.'), ext, '.');
    assert(name0.push('.').last() == '.');
    assert(last_index_of(name, '.') == name0.len());
    assert(extension_of(path) =~= ext);
    assert(ascii_lower(ext) =~= ext);
}

} // verus!
