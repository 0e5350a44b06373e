//! Training bookkeeping of a NeRF model and its readiness for rendering.

use vstd::prelude::*;
use crate::text::{decimal_text, usize_to_text};

verus! {

/// A NeRF model of one scene: whether it has been trained, for how many epochs,
/// and the loss recorded at each epoch (of the application's loss type `L`).
#[derive(Clone, Debug)]
pub struct NerfModel<L> {
    pub scene_id: u128,
    pub trained: bool,
    pub epoch_count: u32,
    pub loss_history: Vec<L>,
}

impl<L> NerfModel<L> {
    /// A model of the scene that has not been trained.
    pub fn new(scene_id: u128) -> (m: Self)
        ensures
            m.scene_id == scene_id,
            !m.trained,
            m.epoch_count == 0,
            m.loss_history@.len() == 0,
            !m.ready(),
    {
        NerfModel { scene_id, trained: false, epoch_count: 0, loss_history: Vec::new() }
    }

    /// A model can render once it has been trained for at least one epoch.
    pub open spec fn ready(&self) -> bool {
        self.trained && self.epoch_count > 0
    }

    /// Whether the model is ready for rendering.
    pub fn is_ready(&self) -> (r: bool)
        ensures
            r == self.ready(),
            r <==> (self.trained && self.epoch_count > 0),
    {
        self.trained && self.epoch_count > 0
    }

    /// The model is the outcome of a training run of `epochs` epochs for
    /// `scene_id`, with `loss` giving the loss of each epoch.
    pub open spec fn trained_for(&self, scene_id: u128, epochs: u32) -> bool {
        &&& self.scene_id == scene_id
        &&& self.trained
        &&& self.epoch_count == epochs
        &&& self.loss_history@.len() == epochs
    }
}

/// Why a training run was refused.
#[derive(Debug, Clone, Copy, PartialEq, Eq, Structural)]
pub enum TrainError {
    /// No image was given.
    NoImages,
    /// The number of images and of camera poses differ.
    CountMismatch { images: usize, poses: usize },
}

impl TrainError {
    pub open spec fn message_spec(&self) -> Seq<char> {
        match self {
            TrainError::NoImages => "No images provided for training"@,
            TrainError::CountMismatch { images, poses } => "Image count ("@ + decimal_text(
                *images as nat,
            ) + ") must match camera pose count ("@ + decimal_text(*poses as nat) + ")"@,
        }
    }

    /// The text that reports the refusal.
    pub fn message(&self) -> (m: String)
        ensures
            m@ == self.message_spec(),
    {
        match self {
            TrainError::NoImages => String::from_str("No images provided for training"),
            TrainError::CountMismatch { images, poses } => {
                let mut m = String::from_str("Image count (");
                let a = usize_to_text(*images);
                m.append(a.as_str());
                m.append(") must match camera pose count (");
                let b = usize_to_text(*poses);
                m.append(b.as_str());
                m.append(")");
                m
            },
        }
    }
}

/// Receiver of training progress: after each epoch it is told the number of
/// epochs completed and that epoch's loss.
pub trait ProgressReporter<L> {
    /// The reports received so far, in order.
    spec fn reported(&self) -> Seq<(u32, L)>;

    fn report(&mut self, epoch: u32, loss: L)
        ensures
            final(self).reported() == old(self).reported().push((epoch, loss)),
    ;
}

/// A progress receiver that keeps every report.
pub struct ProgressLog<L> {
    pub entries: Vec<(u32, L)>,
}

impl<L> ProgressLog<L> {
    pub fn new() -> (log: Self)
        ensures
            log.entries@.len() == 0,
    {
        ProgressLog { entries: Vec::new() }
    }
}

impl<L> ProgressReporter<L> for ProgressLog<L> {
    open spec fn reported(&self) -> Seq<(u32, L)> {
        self.entries@
    }

    fn report(&mut self, epoch: u32, loss: L) {
        self.entries.push((epoch, loss));
    }
}

/// A progress receiver that hands each report to a callback, and remembers (in
/// proof only) the reports handed over.
pub struct CallbackProgress<L, C: Fn(u32, L)> {
    callback: C,
    log: Ghost<Seq<(u32, L)>>,
}

impl<L, C: Fn(u32, L)> CallbackProgress<L, C> {
    #[verifier::type_invariant]
    spec fn callable(self) -> bool {
        &&& forall|e: u32, l: L| self.callback.requires((e, l))
        &&& self.delivered()
    }

    /// The callback the reports are handed to.
    pub closed spec fn callback_of(&self) -> C {
        self.callback
    }

    /// Every report received so far has been handed to the callback: the
    /// callback was called with it.
    pub closed spec fn delivered(&self) -> bool {
        forall|i: int|
            0 <= i < self.log@.len() ==> call_ensures(
                self.callback,
                (#[trigger] self.log@[i].0, self.log@[i].1),
                (),
            )
    }

    /// A receiver for `callback`, which has received nothing yet.
    pub fn new(callback: C) -> (r: Self)
        requires
            forall|e: u32, l: L| callback.requires((e, l)),
        ensures
            r.reported() == Seq::<(u32, L)>::empty(),
            r.callback_of() == callback,
            r.delivered(),
    {
        CallbackProgress { callback, log: Ghost(Seq::empty()) }
    }
}

/// Each report a callback-backed receiver holds was handed to its callback
/// with the same epoch and loss.
pub proof fn lemma_reports_reach_callback<L, C: Fn(u32, L)>(p: CallbackProgress<L, C>, i: int)
    requires
        p.delivered(),
        0 <= i < p.reported().len(),
    ensures
        call_ensures(p.callback_of(), (p.reported()[i].0, p.reported()[i].1), ()),
{
    assert(p.log@[i] == p.reported()[i]);
}

impl<L, C: Fn(u32, L)> ProgressReporter<L> for CallbackProgress<L, C> {
    closed spec fn reported(&self) -> Seq<(u32, L)> {
        self.log@
    }

    fn report(&mut self, epoch: u32, loss: L)
        ensures
            call_ensures(old(self).callback_of(), (epoch, loss), ()),
            final(self).callback_of() == old(self).callback_of(),
            final(self).delivered(),
    {
        proof {
            use_type_invariant(&*self);
        }
        (self.callback)(epoch, loss);
        let ghost before = self.log@;
        self.log = Ghost(self.log@.push((epoch, loss)));
        assert forall|i: int| 0 <= i < self.log@.len() implies call_ensures(
            self.callback,
            (#[trigger] self.log@[i].0, self.log@[i].1),
            (),
        ) by {
            if i < before.len() {
                assert(self.log@[i] == before[i]);
            }
        }
    }
}

/// The progress reports of a training run whose losses are `losses`: after
/// epoch `e` (counting from 0), `(e + 1, losses[e])`.
pub open spec fn progress_reports<L>(losses: Seq<L>) -> Seq<(u32, L)> {
    Seq::new(losses.len(), |e: int| ((e + 1) as u32, losses[e]))
}

/// Trains a model of `scene_id` from one image per camera pose, for
/// `total_epochs` epochs.
///
/// Without images, or with a number of poses that differs from the number of
/// images, the run is refused. Otherwise epoch `e` (counting from 0) records
/// the loss `loss_fn(e, total_epochs)` and then reports `(e + 1, loss)` to
/// `progress`; at the end the model is marked trained.
pub fn train_model<I, P, L: Copy, F: Fn(u32, u32) -> L, R: ProgressReporter<L>>(
    scene_id: u128,
    total_epochs: u32,
    image_paths: &Vec<I>,
    camera_poses: &Vec<P>,
    loss_fn: &F,
    progress: &mut R,
) -> (r: Result<NerfModel<L>, TrainError>)
    requires
        forall|e: u32, t: u32| loss_fn.requires((e, t)),
    ensures
        image_paths@.len() == 0 ==> r == Err::<NerfModel<L>, TrainError>(TrainError::NoImages),
        image_paths@.len() != 0 && image_paths@.len() != camera_poses@.len() ==> r == Err::<
            NerfModel<L>,
            TrainError,
        >(TrainError::CountMismatch { images: image_paths@.len() as usize, poses: camera_poses@.len() as usize }),
        image_paths@.len() != 0 && image_paths@.len() == camera_poses@.len() ==> r is Ok,
        r is Err ==> final(progress).reported() == old(progress).reported(),
        r matches Ok(m) ==> m.trained_for(scene_id, total_epochs),
        r matches Ok(m) ==> forall|e: int|
            0 <= e < total_epochs ==> loss_fn.ensures((e as u32, total_epochs), #[trigger] m.loss_history@[e]),
        r matches Ok(m) ==> final(progress).reported() == old(progress).reported()
            + progress_reports(m.loss_history@),
{
    if image_paths.len() == 0 {
        return Err(TrainError::NoImages);
    }
    if image_paths.len() != camera_poses.len() {
        return Err(TrainError::CountMismatch { images: image_paths.len(), poses: camera_poses.len() });
    }
    let ghost start = progress.reported();
    let mut model: NerfModel<L> = NerfModel::new(scene_id);
    let mut epoch: u32 = 0;
    assert(progress.reported() =~= start + progress_reports(model.loss_history@));
    while epoch < total_epochs
        invariant
            forall|e: u32, t: u32| loss_fn.requires((e, t)),
            epoch <= total_epochs,
            model.scene_id == scene_id,
            !model.trained,
            model.epoch_count == epoch,
            model.loss_history@.len() == epoch,
            forall|e: int|
                0 <= e < epoch ==> loss_fn.ensures((e as u32, total_epochs), #[trigger] model.loss_history@[e]),
            progress.reported() == start + progress_reports(model.loss_history@),
        decreases total_epochs - epoch,
    {
        let loss = loss_fn(epoch, total_epochs);
        let ghost before = model.loss_history@;
        model.loss_history.push(loss);
        model.epoch_count = epoch + 1;
        progress.report(epoch + 1, loss);
        assert(progress_reports(model.loss_history@) =~= progress_reports(before).push(
            ((epoch + 1) as u32, loss),
        ));
        assert(progress.reported() =~= start + progress_reports(model.loss_history@));
        epoch = epoch + 1;
    }
    model.trained = true;
    Ok(model)
}

/// A model is ready exactly when it has been marked trained and has completed
/// at least one epoch: in particular, a model not marked trained never is.
pub proof fn lemma_ready_means_trained<L>(m: NerfModel<L>)
    ensures
        m.ready() <==> (m.trained && m.epoch_count > 0),
        !m.trained ==> !m.ready(),
        m.epoch_count == 0 ==> !m.ready(),
{
}

/// A completed training run of at least one epoch leaves the model ready to
/// render.
pub proof fn lemma_trained_model_ready<L>(m: NerfModel<L>, scene_id: u128, epochs: u32)
    requires
        m.trained_for(scene_id, epochs),
        epochs > 0,
    ensures
        m.ready(),
{
}

/// A run of zero epochs marks the model trained but leaves it unable to render.
pub proof fn lemma_zero_epoch_model_not_ready<L>(m: NerfModel<L>, scene_id: u128)
    requires
        m.trained_for(scene_id, 0),
    ensures
        m.trained,
        !m.ready(),
{
}

} // verus!
