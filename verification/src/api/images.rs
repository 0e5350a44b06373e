//! Rules of the image endpoints: naming the stored files of an upload, reading
//! the scene an upload belongs to from its field name, and the answers to
//! failures.

use vstd::prelude::*;
use crate::ids::{
    id_text, is_random_uuid, new_uuid_v4, parse_uuid, uuid_groups, uuid_parse_result, uuid_text,
    lemma_uuid_text_split,
};
use crate::models::images::{
    image_download_url, image_download_url_spec, image_thumbnail_url, image_thumbnail_url_spec,
};
use crate::utils::imaging::{
    decode_image, decoded_image, image_dimensions, image_size, resize_fit_size,
    thumbnail_of,
};
use crate::text::{
    has_char, join_spec, lemma_split_concat, lemma_split_nonempty, lemma_split_without_sep,
    split_on, split_spec,
};

verus! {

/// Extension used when an upload names no file.
pub open spec fn default_extension() -> Seq<char> {
    seq!['p', 'n', 'g']
}

/// The extension given to a stored upload: the text after the last `.` of the
/// uploaded file's name (the whole name when it has no `.`), or `png` when the
/// upload names no file.
pub open spec fn extension_spec(file_name: Option<Seq<char>>) -> Seq<char> {
    match file_name {
        Some(name) => split_spec(name, '.').last(),
        None => default_extension(),
    }
}

/// The extension of an uploaded file's name.
pub fn get_extension(file_name: Option<&str>) -> (ext: String)
    ensures
        ext@ == extension_spec(
            match file_name {
                Some(n) => Some(n@),
                None => None,
            },
        ),
        file_name is None ==> ext@ == default_extension(),
        forall|stem: Seq<char>, suffix: Seq<char>|
            #![trigger stem.push('.') + suffix]
            file_name matches Some(n) ==> (n@ == stem.push('.') + suffix && !has_char(suffix, '.')
                ==> ext@ == suffix),
        file_name matches Some(n) ==> (!has_char(n@, '.') ==> ext@ == n@),
{
    match file_name {
        Some(name) => {
            let pieces = split_on(name, '.');
            proof {
                lemma_split_nonempty(name@, '.');
            }
            let ext = pieces[pieces.len() - 1].clone();
            assert(ext@ == pieces.deep_view()[pieces.len() - 1]);
            proof {
                assert forall|stem: Seq<char>, suffix: Seq<char>|
                    name@ == stem.push('.') + suffix && !has_char(suffix, '.') implies ext@
                    == suffix by {
                    lemma_split_concat(stem, suffix, '.');
                    lemma_split_without_sep(suffix, '.');
                }
                if !has_char(name@, '.') {
                    lemma_split_without_sep(name@, '.');
                }
            }
            ext
        },
        None => {
            let ext = String::from_str("png");
            proof {
                reveal_strlit("png");
            }
            assert(ext@ =~= default_extension());
            ext
        },
    }
}


/// Camera information carried by an upload's field name: the scene it belongs
/// to (`scene-{uuid}-image.png`), or the pitch and yaw of the camera as written
/// in the name (`image-{pitch}-{yaw}.png`). Whatever the name does not give is
/// the zero pose.
#[derive(Debug)]
pub struct CameraData {
    pub scene_id: Option<u128>,
    pub rotation_text: Option<(String, String)>,
}

pub open spec fn rotation_view(r: Option<(String, String)>) -> Option<(Seq<char>, Seq<char>)> {
    match r {
        Some((p, y)) => Some((p@, y@)),
        None => None,
    }
}

/// The word that opens the `image-{pitch}-{yaw}.png` naming convention.
pub open spec fn image_word() -> Seq<char> {
    seq!['i', 'm', 'a', 'g', 'e']
}

/// Position of the last `c` in `s`, or `-1` when there is none.
pub open spec fn last_index_of(s: Seq<char>, c: char) -> int
    decreases s.len(),
{
    if s.len() == 0 {
        -1
    } else if s.last() == c {
        s.len() - 1
    } else {
        last_index_of(s.drop_last(), c)
    }
}

/// `s` without its extension: the text before its last `.`, or all of `s`
/// when it has none.
pub open spec fn strip_extension(s: Seq<char>) -> Seq<char> {
    let i = last_index_of(s, '.');
    if i < 0 {
        s
    } else {
        s.subrange(0, i)
    }
}

/// The pitch and yaw texts an upload field name gives under the convention
/// `image-{pitch}-{yaw}.png`: the name is three pieces between hyphens, the
/// first is `image`, the second is the pitch and the third, without its
/// extension, the yaw.
pub open spec fn camera_rotation_text(name: Seq<char>) -> Option<(Seq<char>, Seq<char>)> {
    let parts = split_spec(name, '-');
    if parts.len() == 3 && parts[0] == image_word() {
        Some((parts[1], strip_extension(parts[2])))
    } else {
        None
    }
}

/// The camera data an upload field named `name` carries: present when the name
/// follows one of the two conventions, with what it gives.
pub open spec fn camera_data_describes(data: Option<CameraData>, name: Seq<char>) -> bool {
    &&& (data is Some <==> (camera_scene_id(name) is Some || camera_rotation_text(name) is Some))
    &&& data matches Some(c) ==> c.scene_id == camera_scene_id(name) && rotation_view(
        c.rotation_text,
    ) == camera_rotation_text(name)
}

proof fn lemma_last_index_after(a: Seq<char>, b: Seq<char>, c: char)
    requires
        !has_char(b, c),
    ensures
        last_index_of(a.push(c) + b, c) == a.len(),
    decreases b.len(),
{
    if b.len() == 0 {
        assert(a.push(c) + b =~= a.push(c));
    } else {
        let whole = a.push(c) + b;
        assert(whole.drop_last() =~= a.push(c) + b.drop_last());
        assert(whole.last() == b[b.len() - 1]);
        assert(!has_char(b.drop_last(), c)) by {
            if has_char(b.drop_last(), c) {
                let i = choose|i: int| 0 <= i < b.drop_last().len() && b.drop_last()[i] == c;
                assert(b[i] == c);
            }
        }
        lemma_last_index_after(a, b.drop_last(), c);
    }
}

/// `s` without its extension.
fn strip_extension_of(s: &str) -> (r: String)
    ensures
        r@ == strip_extension(s@),
{
    let n = s.unicode_len();
    let mut found = false;
    let mut last: usize = 0;
    let mut i: usize = 0;
    while i < n
        invariant
            n == s@.len(),
            i <= n,
            last < n || !found,
            last_index_of(s@.take(i as int), '.') == (if found { last as int } else { -1 }),
        decreases n - i,
    {
        assert(s@.take(i + 1).drop_last() =~= s@.take(i as int));
        if s.get_char(i) == '.' {
            found = true;
            last = i;
        }
        i = i + 1;
    }
    assert(s@.take(n as int) =~= s@);
    if found {
        String::from_str(s.substring_char(0, last))
    } else {
        String::from_str(s)
    }
}

/// The word that opens the `scene-{uuid}-image.png` naming convention.
pub open spec fn scene_word() -> Seq<char> {
    seq!['s', 'c', 'e', 'n', 'e']
}

/// The scene an upload field name points to, under the convention
/// `scene-{uuid}-...`: the pieces between hyphens are taken, the first must be
/// `scene`; the identifier is read from the five pieces that follow (the
/// hyphenated form), or else from the single piece after `scene`.
pub open spec fn camera_scene_id(name: Seq<char>) -> Option<u128> {
    let parts = split_spec(name, '-');
    if parts.len() >= 2 && parts[0] == scene_word() {
        let joined = join_spec(parts.subrange(1, 6), '-');
        if parts.len() >= 6 && uuid_parse_result(joined) is Some {
            uuid_parse_result(joined)
        } else {
            uuid_parse_result(parts[1])
        }
    } else {
        None
    }
}

/// Whether `c` is absent from every piece.
pub open spec fn no_piece_has(pieces: Seq<Seq<char>>, c: char) -> bool {
    forall|k: int| 0 <= k < pieces.len() ==> !has_char(#[trigger] pieces[k], c)
}

/// Joins `pieces[lo..hi]` with hyphens.
fn join_hyphenated(pieces: &Vec<String>, lo: usize, hi: usize) -> (joined: String)
    requires
        lo < hi <= pieces.len(),
    ensures
        joined@ == join_spec(pieces.deep_view().subrange(lo as int, hi as int), '-'),
{
    let ghost all = pieces.deep_view();
    let mut joined = pieces[lo].clone();
    let mut i = lo + 1;
    assert(all.subrange(lo as int, lo + 1) =~= seq![all[lo as int]]);
    while i < hi
        invariant
            lo < i <= hi <= pieces.len(),
            all == pieces.deep_view(),
            joined@ == join_spec(all.subrange(lo as int, i as int), '-'),
        decreases hi - i,
    {
        proof {
            reveal_strlit("-");
        }
        joined.append("-");
        joined.append(pieces[i].as_str());
        assert(all.subrange(lo as int, i + 1).drop_last() =~= all.subrange(lo as int, i as int));
        assert(joined@ =~= join_spec(all.subrange(lo as int, i + 1), '-'));
        i = i + 1;
    }
    joined
}

/// Reads the scene named by an upload field, following `camera_scene_id`.
fn parse_scene_id(field_name: &str) -> (found: Option<u128>)
    ensures
        found == camera_scene_id(field_name@),
        forall|id: u128, tail: Seq<char>|
            #![trigger scene_word().push('-') + uuid_text(id) + tail]
            field_name@ == scene_word().push('-') + uuid_text(id) + tail && (tail.len() == 0
                || tail[0] == '-') ==> found == Some(id),
{
    let parts = split_on(field_name, '-');
    let ghost ps = parts.deep_view();
    let mut found: Option<u128> = None;
    if parts.len() >= 2 {
        let scene = String::from_str("scene");
        proof {
            reveal_strlit("scene");
        }
        assert(scene@ =~= scene_word());
        if parts[0] == scene {
            assert(ps[0] == parts@[0]@);
            if parts.len() >= 6 {
                let joined = join_hyphenated(&parts, 1, 6);
                found = parse_uuid(joined.as_str());
            }
            if found.is_none() {
                found = parse_uuid(parts[1].as_str());
                assert(ps[1] == parts@[1]@);
            }
        } else {
            assert(ps[0] == parts@[0]@);
        }
    }
    proof {
        assert forall|id: u128, tail: Seq<char>|
            field_name@ == scene_word().push('-') + uuid_text(id) + tail && (tail.len() == 0
                || tail[0] == '-') implies found == Some(id) by {
            lemma_uuid_text_split(id);
            lemma_split_without_sep(scene_word(), '-');
            let rest = uuid_text(id) + tail;
            assert(field_name@ =~= scene_word().push('-') + rest);
            lemma_split_concat(scene_word(), rest, '-');
            if tail.len() == 0 {
                assert(rest =~= uuid_text(id));
            } else {
                let after = tail.drop_first();
                assert(tail =~= seq!['-'] + after);
                assert(rest =~= uuid_text(id).push('-') + after);
                lemma_split_concat(uuid_text(id), after, '-');
                lemma_split_nonempty(after, '-');
            }
            let pieces = split_spec(field_name@, '-');
            assert(pieces[0] == scene_word());
            assert(pieces.subrange(1, 6) =~= uuid_groups(id));
        }
    }
    found
}

/// Reads the pitch and yaw texts of an upload field, following
/// `camera_rotation_text`.
fn parse_rotation_text(field_name: &str) -> (r: Option<(String, String)>)
    ensures
        rotation_view(r) == camera_rotation_text(field_name@),
{
    let parts = split_on(field_name, '-');
    let ghost ps = parts.deep_view();
    if parts.len() == 3 {
        let image = String::from_str("image");
        proof {
            reveal_strlit("image");
        }
        assert(image@ =~= image_word());
        assert(ps[0] == parts@[0]@);
        if parts[0] == image {
            let pitch = parts[1].clone();
            let yaw = strip_extension_of(parts[2].as_str());
            assert(ps[1] == parts@[1]@);
            assert(ps[2] == parts@[2]@);
            return Some((pitch, yaw));
        }
    }
    None
}

/// Reads the camera data an upload field's name carries.
///
/// A field named `scene-{uuid}` or `scene-{uuid}-{anything}` yields that scene;
/// a field named `image-{pitch}-{yaw}.{extension}` yields the pitch and yaw
/// texts.
pub fn parse_camera_data(field_name: &str) -> (data: Option<CameraData>)
    ensures
        camera_data_describes(data, field_name@),
        forall|id: u128, tail: Seq<char>|
            #![trigger scene_word().push('-') + uuid_text(id) + tail]
            field_name@ == scene_word().push('-') + uuid_text(id) + tail && (tail.len() == 0
                || tail[0] == '-') ==> (data matches Some(c) && c.scene_id == Some(id)
                && c.rotation_text is None),
        forall|pitch: Seq<char>, yaw: Seq<char>, ext: Seq<char>|
            #![trigger image_word().push('-') + pitch.push('-') + yaw.push('.') + ext]
            field_name@ == image_word().push('-') + pitch.push('-') + yaw.push('.') + ext
                && !has_char(pitch, '-') && !has_char(yaw, '-') && !has_char(yaw, '.')
                && !has_char(ext, '-') && !has_char(ext, '.') ==> (data matches Some(c)
                && c.scene_id is None && rotation_view(c.rotation_text) == Some((pitch, yaw))),
{
    let scene_id = parse_scene_id(field_name);
    let rotation_text = parse_rotation_text(field_name);
    proof {
        assert forall|id: u128, tail: Seq<char>|
            field_name@ == scene_word().push('-') + uuid_text(id) + tail && (tail.len() == 0
                || tail[0] == '-') implies camera_rotation_text(field_name@) is None by {
            lemma_split_nonempty(field_name@, '-');
            let rest = uuid_text(id) + tail;
            assert(field_name@ =~= scene_word().push('-') + rest);
            lemma_split_concat(scene_word(), rest, '-');
            lemma_split_without_sep(scene_word(), '-');
            assert(split_spec(field_name@, '-')[0] == scene_word());
            assert(scene_word()[0] != image_word()[0]);
        }
        assert forall|pitch: Seq<char>, yaw: Seq<char>, ext: Seq<char>|
            field_name@ == image_word().push('-') + pitch.push('-') + yaw.push('.') + ext
                && !has_char(pitch, '-') && !has_char(yaw, '-') && !has_char(yaw, '.')
                && !has_char(ext, '-') && !has_char(ext, '.') implies camera_scene_id(field_name@)
            is None && camera_rotation_text(field_name@) == Some((pitch, yaw)) by {
            let last = yaw.push('.') + ext;
            assert(!has_char(last, '-')) by {
                if has_char(last, '-') {
                    let i = choose|i: int| 0 <= i < last.len() && last[i] == '-';
                    if i < yaw.len() {
                        assert(yaw[i] == '-');
                    } else if i > yaw.len() {
                        assert(ext[i - yaw.len() - 1] == '-');
                    }
                }
            }
            let rest = pitch.push('-') + last;
            assert(field_name@ =~= image_word().push('-') + rest);
            lemma_split_concat(image_word(), rest, '-');
            lemma_split_concat(pitch, last, '-');
            lemma_split_without_sep(image_word(), '-');
            lemma_split_without_sep(pitch, '-');
            lemma_split_without_sep(last, '-');
            let parts = split_spec(field_name@, '-');
            assert(parts =~= seq![image_word(), pitch, last]);
            lemma_last_index_after(yaw, ext, '.');
            assert(last.subrange(0, yaw.len() as int) =~= yaw);
            assert(image_word()[0] != scene_word()[0]);
        }
    }
    if scene_id.is_some() || rotation_text.is_some() {
        Some(CameraData { scene_id, rotation_text })
    } else {
        None
    }
}


/// Name under which an upload's original is stored: `{file_id}.{extension}`.
pub open spec fn stored_filename_spec(file_id: u128, extension: Seq<char>) -> Seq<char> {
    uuid_text(file_id).push('.') + extension
}

/// Name of the thumbnail stored beside the file named `filename`.
pub open spec fn thumbnail_filename_spec(filename: Seq<char>) -> Seq<char> {
    "thumb_"@ + filename
}

/// The thumbnail file that belongs to the stored file `filename`.
pub fn thumbnail_filename(filename: &str) -> (thumb: String)
    ensures
        thumb@ == thumbnail_filename_spec(filename@),
{
    let mut thumb = String::from_str("thumb_");
    thumb.append(filename);
    thumb
}

/// Name given to an upload whose field carries no name.
pub open spec fn unnamed_field() -> Seq<char> {
    "unknown"@
}

/// What an upload field becomes: the names of the files stored for it and the
/// scene it is recorded under.
#[derive(Debug)]
pub struct UploadPlan {
    pub file_id: u128,
    pub original_name: String,
    pub extension: String,
    pub filename: String,
    pub thumbnail_filename: String,
    pub camera_data: Option<CameraData>,
    pub scene_id: u128,
}

impl UploadPlan {
    /// The plan for a field named `field_name` carrying the file `file_name`,
    /// stored under `file_id`; `fallback_scene_id` is the scene used when the
    /// field name names none.
    pub open spec fn describes(
        self,
        field_name: Option<Seq<char>>,
        file_name: Option<Seq<char>>,
        file_id: u128,
        fallback_scene_id: u128,
    ) -> bool {
        let name = match field_name {
            Some(n) => n,
            None => unnamed_field(),
        };
        &&& self.file_id == file_id
        &&& self.original_name@ == name
        &&& self.extension@ == extension_spec(file_name)
        &&& self.filename@ == stored_filename_spec(file_id, self.extension@)
        &&& self.thumbnail_filename@ == thumbnail_filename_spec(self.filename@)
        &&& camera_data_describes(self.camera_data, name)
        &&& self.scene_id == match camera_scene_id(name) {
            Some(id) => id,
            None => fallback_scene_id,
        }
    }
}

pub open spec fn opt_view(s: Option<&str>) -> Option<Seq<char>> {
    match s {
        Some(t) => Some(t@),
        None => None,
    }
}

/// Plans the storage of one upload field, with the identifiers given.
pub fn plan_upload_with(
    field_name: Option<&str>,
    file_name: Option<&str>,
    file_id: u128,
    fallback_scene_id: u128,
) -> (plan: UploadPlan)
    ensures
        plan.describes(opt_view(field_name), opt_view(file_name), file_id, fallback_scene_id),
{
    let original_name = match field_name {
        Some(n) => String::from_str(n),
        None => String::from_str("unknown"),
    };
    let extension = get_extension(file_name);
    let mut filename = id_text(file_id);
    filename.append(".");
    proof {
        reveal_strlit(".");
    }
    filename.append(extension.as_str());
    assert(filename@ =~= stored_filename_spec(file_id, extension@));
    assert(extension@ == extension_spec(opt_view(file_name)));
    let thumb = thumbnail_filename(filename.as_str());
    let camera_data = parse_camera_data(original_name.as_str());
    let scene_id = match &camera_data {
        Some(CameraData { scene_id: Some(id), .. }) => *id,
        _ => fallback_scene_id,
    };
    UploadPlan {
        file_id,
        original_name,
        extension,
        filename,
        thumbnail_filename: thumb,
        camera_data,
        scene_id,
    }
}

/// Plans the storage of one upload field, drawing a fresh random identifier
/// for the stored file and one for the scene in case the field name names none.
pub fn plan_upload(field_name: Option<&str>, file_name: Option<&str>) -> (plan: UploadPlan)
    ensures
        is_random_uuid(plan.file_id),
        exists|fallback: u128|
            is_random_uuid(fallback) && plan.describes(
                opt_view(field_name),
                opt_view(file_name),
                plan.file_id,
                fallback,
            ),
{
    let file_id = new_uuid_v4();
    let fallback = new_uuid_v4();
    plan_upload_with(field_name, file_name, file_id, fallback)
}

/// The thumbnail an upload stores is the one the thumbnail and delete
/// endpoints look for under the stored file's name.
pub proof fn lemma_upload_thumbnail_is_found(
    plan: UploadPlan,
    field_name: Option<Seq<char>>,
    file_name: Option<Seq<char>>,
    file_id: u128,
    fallback_scene_id: u128,
)
    requires
        plan.describes(field_name, file_name, file_id, fallback_scene_id),
    ensures
        plan.thumbnail_filename@ == thumbnail_filename_spec(plan.filename@),
        plan.filename@ == stored_filename_spec(file_id, extension_spec(file_name)),
{
}

/// Answer to one stored upload.
#[derive(Debug)]
pub struct ImageUploadResponse {
    pub id: u128,
    pub scene_id: u128,
    pub filename: String,
    pub original_name: String,
    pub width: i32,
    pub height: i32,
    pub url: String,
    pub thumbnail_url: String,
}

/// The answer for an upload stored as `plan` and recorded as image `image_id`
/// with the given dimensions.
pub fn upload_response(plan: UploadPlan, image_id: u128, width: i32, height: i32) -> (r:
    ImageUploadResponse)
    ensures
        r.id == image_id,
        r.scene_id == plan.scene_id,
        r.filename == plan.filename,
        r.original_name == plan.original_name,
        r.width == width,
        r.height == height,
        r.url@ == image_download_url_spec(image_id),
        r.thumbnail_url@ == image_thumbnail_url_spec(image_id),
{
    ImageUploadResponse {
        id: image_id,
        scene_id: plan.scene_id,
        filename: plan.filename,
        original_name: plan.original_name,
        width,
        height,
        url: image_download_url(image_id),
        thumbnail_url: image_thumbnail_url(image_id),
    }
}

/// Largest side of the thumbnail stored for an upload.
pub const THUMBNAIL_SIZE: u32 = 256;

/// The image decoded from an upload that decodes.
pub open spec fn decoded(data: Seq<u8>) -> image::DynamicImage {
    decoded_image(data)->0
}

/// Decodes an uploaded file stored as `plan` and recorded as image `image_id`,
/// and gives the answer for it with the image's size, together with its
/// thumbnail (at most `THUMBNAIL_SIZE` pixels a side).
///
/// A file that does not decode is an internal failure, reported as
/// `Failed to load image: ` and the decoder's message.
pub fn process_upload(plan: UploadPlan, data: &[u8], image_id: u128) -> (r: Result<
    (ImageUploadResponse, image::DynamicImage),
    AppError,
>)
    ensures
        r is Err <==> decoded_image(data@) is None,
        r matches Err(e) ==> (e matches AppError::Internal(m) && exists|detail: Seq<char>|
            m@ == "Failed to load image: "@ + detail),
        r matches Ok((resp, thumb)) ==> {
            &&& resp.id == image_id
            &&& resp.scene_id == plan.scene_id
            &&& resp.filename == plan.filename
            &&& resp.original_name == plan.original_name
            &&& resp.width == image_size(decoded(data@)).0 as i32
            &&& resp.height == image_size(decoded(data@)).1 as i32
            &&& resp.url@ == image_download_url_spec(image_id)
            &&& resp.thumbnail_url@ == image_thumbnail_url_spec(image_id)
            &&& image_size(thumb) == resize_fit_size(
                image_size(decoded(data@)).0,
                image_size(decoded(data@)).1,
                THUMBNAIL_SIZE,
                THUMBNAIL_SIZE,
            )
            &&& 1 <= image_size(thumb).0 <= THUMBNAIL_SIZE
            &&& 1 <= image_size(thumb).1 <= THUMBNAIL_SIZE
        },
{
    match decode_image(data) {
        Err(detail) => {
            let mut m = String::from_str("Failed to load image: ");
            m.append(detail.as_str());
            Err(AppError::Internal(m))
        },
        Ok(img) => {
            let (width, height) = image_dimensions(&img);
            let thumb = thumbnail_of(&img, THUMBNAIL_SIZE);
            let resp = upload_response(plan, image_id, width as i32, height as i32);
            Ok((resp, thumb))
        },
    }
}

/// Failures of the image endpoints; the database and file-system failures
/// carry their message for the log.
#[derive(Debug)]
pub enum AppError {
    Database(String),
    NotFound(&'static str),
    Internal(String),
    Io(String),
}

impl AppError {
    /// HTTP status answered for the failure.
    pub open spec fn status_spec(&self) -> u16 {
        match self {
            AppError::NotFound(_) => 404,
            _ => 500,
        }
    }

    /// Text of the answer: the database and file-system details are not sent.
    pub open spec fn body_spec(&self) -> Seq<char> {
        match self {
            AppError::Database(_) => "Database error"@,
            AppError::NotFound(msg) => msg@,
            AppError::Internal(msg) => msg@,
            AppError::Io(_) => "File operation failed"@,
        }
    }

    pub fn status_code(&self) -> (code: u16)
        ensures
            code == self.status_spec(),
    {
        match self {
            AppError::NotFound(_) => 404,
            _ => 500,
        }
    }

    pub fn body(&self) -> (body: String)
        ensures
            body@ == self.body_spec(),
    {
        match self {
            AppError::Database(_) => String::from_str("Database error"),
            AppError::NotFound(msg) => String::from_str(msg),
            AppError::Internal(msg) => msg.clone(),
            AppError::Io(_) => String::from_str("File operation failed"),
        }
    }
}

} // verus!
