//! Images uploaded to a scene, and how they are presented to clients.

use vstd::prelude::*;
use crate::ids::{id_text, uuid_text};

verus! {

/// Path under which the original upload of image `id` is served.
pub open spec fn image_download_url_spec(id: u128) -> Seq<char> {
    "/api/v1/images/"@ + uuid_text(id) + "/download"@
}

/// Path under which the thumbnail of image `id` is served.
pub open spec fn image_thumbnail_url_spec(id: u128) -> Seq<char> {
    "/api/v1/images/"@ + uuid_text(id) + "/thumbnail"@
}

/// The download path of image `id`.
pub fn image_download_url(id: u128) -> (url: String)
    ensures
        url@ == image_download_url_spec(id),
{
    let mut url = String::from_str("/api/v1/images/");
    let id_part = id_text(id);
    url.append(id_part.as_str());
    url.append("/download");
    url
}

/// The thumbnail path of image `id`.
pub fn image_thumbnail_url(id: u128) -> (url: String)
    ensures
        url@ == image_thumbnail_url_spec(id),
{
    let mut url = String::from_str("/api/v1/images/");
    let id_part = id_text(id);
    url.append(id_part.as_str());
    url.append("/thumbnail");
    url
}

/// The camera position reported for an image: present exactly when its first
/// coordinate was recorded, with a missing second or third coordinate read as
/// `zero`.
pub fn camera_position<T: Copy>(x: Option<T>, y: Option<T>, z: Option<T>, zero: T) -> (p: Option<[T; 3]>)
    ensures
        x is None ==> p is None,
        x matches Some(xv) ==> p matches Some(a) && a@ == seq![
            xv,
            if y is Some { y->0 } else { zero },
            if z is Some { z->0 } else { zero },
        ],
{
    match x {
        None => None,
        Some(xv) => {
            let yv = match y {
                Some(v) => v,
                None => zero,
            };
            let zv = match z {
                Some(v) => v,
                None => zero,
            };
            let a = [xv, yv, zv];
            assert(a@ =~= seq![xv, yv, zv]);
            Some(a)
        },
    }
}

/// The camera rotation reported for an image: present exactly when its pitch
/// was recorded, with a missing yaw read as `zero`.
pub fn camera_rotation<T: Copy>(pitch: Option<T>, yaw: Option<T>, zero: T) -> (r: Option<[T; 2]>)
    ensures
        pitch is None ==> r is None,
        pitch matches Some(pv) ==> r matches Some(a) && a@ == seq![
            pv,
            if yaw is Some { yaw->0 } else { zero },
        ],
{
    match pitch {
        None => None,
        Some(pv) => {
            let yv = match yaw {
                Some(v) => v,
                None => zero,
            };
            let a = [pv, yv];
            assert(a@ =~= seq![pv, yv]);
            Some(a)
        },
    }
}

} // verus!
