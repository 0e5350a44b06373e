//! Rules of the rendering endpoint: when a view may be rendered, where the
//! rendered image is stored, and the answers to failures.

use vstd::prelude::*;
use crate::ids::{id_text, uuid_text};
use crate::models::scene::SceneStatus;
use crate::nerf::engine::NerfModel;

verus! {

/// Failures of the rendering endpoint.
#[derive(Debug)]
pub enum AppError {
    Database(String),
    NotFound(&'static str),
    BadRequest(String),
    Internal(String),
}

impl AppError {
    pub open spec fn status_spec(&self) -> u16 {
        match self {
            AppError::Database(_) => 500,
            AppError::NotFound(_) => 404,
            AppError::BadRequest(_) => 400,
            AppError::Internal(_) => 500,
        }
    }

    pub open spec fn body_spec(&self) -> Seq<char> {
        match self {
            AppError::Database(_) => "Database error"@,
            AppError::NotFound(msg) => msg@,
            AppError::BadRequest(msg) => msg@,
            AppError::Internal(msg) => msg@,
        }
    }

    /// HTTP status answered for the failure.
    pub fn status_code(&self) -> (code: u16)
        ensures
            code == self.status_spec(),
    {
        match self {
            AppError::Database(_) => 500,
            AppError::NotFound(_) => 404,
            AppError::BadRequest(_) => 400,
            AppError::Internal(_) => 500,
        }
    }

    /// Text of the answer; database details are not sent.
    pub fn body(&self) -> (body: String)
        ensures
            body@ == self.body_spec(),
    {
        match self {
            AppError::Database(_) => String::from_str("Database error"),
            AppError::NotFound(msg) => String::from_str(msg),
            AppError::BadRequest(msg) => msg.clone(),
            AppError::Internal(msg) => msg.clone(),
        }
    }
}

/// The refusal owed to a render request for a scene in status `scene` (`None`
/// when there is no such scene) with the model `model`, as the status and text
/// of the answer; `None` when the view may be rendered.
pub open spec fn render_refusal<L>(scene: Option<SceneStatus>, model: NerfModel<L>) -> Option<
    (u16, Seq<char>),
> {
    match scene {
        None => Some((404u16, "Scene not found"@)),
        Some(SceneStatus::Ready) => if model.ready() {
            None
        } else {
            Some((400u16, "NeRF model not trained yet"@))
        },
        Some(_) => Some((400u16, "Scene must be in 'Ready' status to render"@)),
    }
}

pub open spec fn status_view(scene: Option<&SceneStatus>) -> Option<SceneStatus> {
    match scene {
        Some(s) => Some(*s),
        None => None,
    }
}

/// Decides whether a view may be rendered: the scene must exist, be `Ready`,
/// and its model must be trained.
pub fn check_render<L>(scene: Option<&SceneStatus>, model: &NerfModel<L>) -> (r: Result<(), AppError>)
    ensures
        r is Ok <==> render_refusal(status_view(scene), *model) is None,
        r matches Err(e) ==> render_refusal(status_view(scene), *model) == Some(
            (e.status_spec(), e.body_spec()),
        ),
        r is Ok <==> (scene matches Some(s) && s is Ready && model.ready()),
        r is Ok ==> model.trained && model.epoch_count > 0,
        scene matches Some(s) && s is Ready && !(model.trained && model.epoch_count > 0) ==> (
        r matches Err(e) && e.status_spec() == 400 && e.body_spec() == "NeRF model not trained yet"@),
{
    match scene {
        None => Err(AppError::NotFound("Scene not found")),
        Some(SceneStatus::Ready) => {
            if model.is_ready() {
                Ok(())
            } else {
                Err(AppError::BadRequest(String::from_str("NeRF model not trained yet")))
            }
        },
        Some(_) => Err(
            AppError::BadRequest(String::from_str("Scene must be in 'Ready' status to render")),
        ),
    }
}

/// The model a render request for scene `scene_id` works with. Models are not
/// stored: a scene in status `Ready` has had its model trained, here taken as
/// trained for `trained_epochs` epochs (its losses are not kept); the model of
/// a scene in any other status, or of no scene, is untrained.
pub open spec fn restored_model_spec<L>(
    m: NerfModel<L>,
    scene_id: u128,
    scene: Option<SceneStatus>,
    trained_epochs: u32,
) -> bool {
    let ready = scene matches Some(s) && s is Ready;
    &&& m.scene_id == scene_id
    &&& m.trained == ready
    &&& m.epoch_count == (if ready { trained_epochs } else { 0 })
    &&& m.loss_history@.len() == 0
}

/// Restores the model of a scene for rendering (see `restored_model_spec`).
pub fn restore_model<L>(scene_id: u128, scene: Option<&SceneStatus>, trained_epochs: u32) -> (m:
    NerfModel<L>)
    ensures
        restored_model_spec(m, scene_id, status_view(scene), trained_epochs),
{
    let mut m: NerfModel<L> = NerfModel::new(scene_id);
    match scene {
        Some(SceneStatus::Ready) => {
            m.trained = true;
            m.epoch_count = trained_epochs;
        },
        _ => {},
    }
    m
}

/// Prepares a render request for scene `scene_id`, in status `scene` (`None`
/// when there is no such scene): restores its model and checks that the view
/// may be rendered. A `Ready` scene whose model was trained for at least one
/// epoch renders.
pub fn prepare_render<L>(scene_id: u128, scene: Option<&SceneStatus>, trained_epochs: u32) -> (r:
    Result<NerfModel<L>, AppError>)
    ensures
        r is Ok <==> (scene matches Some(s) && s is Ready && trained_epochs > 0),
        r matches Ok(m) ==> restored_model_spec(m, scene_id, status_view(scene), trained_epochs)
            && m.ready(),
        r matches Err(e) ==> exists|m: NerfModel<L>|
            restored_model_spec(m, scene_id, status_view(scene), trained_epochs) && render_refusal(
                status_view(scene),
                m,
            ) == Some((e.status_spec(), e.body_spec())),
{
    let model: NerfModel<L> = restore_model(scene_id, scene, trained_epochs);
    match check_render(scene, &model) {
        Ok(()) => Ok(model),
        Err(e) => Err(e),
    }
}

/// A scene in status `Ready` whose model was trained for at least one epoch
/// passes the render check with its restored model.
pub proof fn lemma_ready_scene_renders<L>(m: NerfModel<L>, scene_id: u128, trained_epochs: u32)
    requires
        restored_model_spec(m, scene_id, Some(SceneStatus::Ready), trained_epochs),
        trained_epochs > 0,
    ensures
        render_refusal(Some(SceneStatus::Ready), m) is None,
{
}

/// File under which the view rendered as `render_id` is stored.
pub open spec fn render_filename_spec(render_id: u128) -> Seq<char> {
    "render_"@ + uuid_text(render_id) + ".png"@
}

/// Path under which the view rendered as `render_id` is offered.
pub open spec fn render_image_url_spec(render_id: u128) -> Seq<char> {
    "/api/v1/render/download/"@ + uuid_text(render_id)
}

/// The file of a rendered view; the download reads the same name.
pub fn render_filename(render_id: u128) -> (name: String)
    ensures
        name@ == render_filename_spec(render_id),
{
    let mut name = String::from_str("render_");
    let id = id_text(render_id);
    name.append(id.as_str());
    name.append(".png");
    name
}

/// The path of a rendered view.
pub fn render_image_url(render_id: u128) -> (url: String)
    ensures
        url@ == render_image_url_spec(render_id),
{
    let mut url = String::from_str("/api/v1/render/download/");
    let id = id_text(render_id);
    url.append(id.as_str());
    url
}

} // verus!
