//! Driving an egui context for a number of frames before a capture.
use vstd::prelude::*;

verus! {

#[verifier::external_type_specification]
#[verifier::external_body]
pub struct ExContext(egui::Context);

#[verifier::external_type_specification]
#[verifier::external_body]
pub struct ExRawInput(egui::RawInput);

#[verifier::external_type_specification]
#[verifier::external_body]
pub struct ExPlatformOutput(egui::PlatformOutput);

#[verifier::external_type_specification]
#[verifier::external_body]
pub struct ExClippedShape(egui::epaint::ClippedShape);

#[verifier::external_type_specification]
#[verifier::external_body]
pub struct ExTexturesDelta(egui::TexturesDelta);

/// The textures that a delta sets, in order, each by its id: `(false, n)`
/// for `TextureId::Managed(n)`, `(true, n)` for `TextureId::User(n)`.
pub uninterp spec fn textures_set(d: egui::TexturesDelta) -> Seq<(bool, u64)>;

/// The textures that a delta frees, in order, by id as for `textures_set`.
pub uninterp spec fn textures_freed(d: egui::TexturesDelta) -> Seq<(bool, u64)>;

/// Relies on the derived `Default` of egui::TexturesDelta: both lists empty.
#[verifier::external_body]
fn empty_delta() -> (r: egui::TexturesDelta)
    ensures
        textures_set(r) == Seq::<(bool, u64)>::empty(),
        textures_freed(r) == Seq::<(bool, u64)>::empty(),
{
    egui::TexturesDelta::default()
}

/// Relies on egui::TexturesDelta::append, which extends both lists of `d`
/// with those of `newer`.
#[verifier::external_body]
fn append_delta(d: &mut egui::TexturesDelta, newer: egui::TexturesDelta)
    ensures
        textures_set(*final(d)) == textures_set(*old(d)) + textures_set(newer),
        textures_freed(*final(d)) == textures_freed(*old(d)) + textures_freed(newer),
{
    d.append(newer)
}

/// Relies on the derived `Clone` of egui::RawInput.
#[verifier::external_body]
fn copy_input(input: &egui::RawInput) -> (r: egui::RawInput) {
    input.clone()
}

/// Relies on egui::Context::run, which runs `ui` once on the context as one
/// frame; the frame's output is split into its shapes, its texture changes
/// and what it asks of the platform.
#[verifier::external_body]
fn run_context<F: FnMut(&egui::Context)>(ctx: &egui::Context, input: egui::RawInput, ui: &mut F) -> (r: (
    Vec<egui::epaint::ClippedShape>,
    egui::TexturesDelta,
    egui::PlatformOutput,
)) {
    let out = ctx.run(input, ui);
    (out.shapes, out.textures_delta, out.platform_output)
}

/// An egui context with what its frames have produced since the last paint:
/// the shapes of the latest frame, and the texture changes of all of them.
pub struct FrameDriver {
    pub egui_ctx: egui::Context,
    shapes: Vec<egui::epaint::ClippedShape>,
    textures_delta: egui::TexturesDelta,
    /// Frames run since the last paint.
    frames: Ghost<nat>,
}

impl FrameDriver {
    /// The number of frames run since the last paint.
    pub closed spec fn frames_run(&self) -> nat {
        self.frames@
    }

    /// The shapes of the latest frame run since the last paint.
    pub closed spec fn pending_shapes(&self) -> Seq<egui::epaint::ClippedShape> {
        self.shapes@
    }

    /// The texture ids set since the last paint, in order.
    pub closed spec fn pending_set(&self) -> Seq<(bool, u64)> {
        textures_set(self.textures_delta)
    }

    /// The texture ids freed since the last paint, in order.
    pub closed spec fn pending_freed(&self) -> Seq<(bool, u64)> {
        textures_freed(self.textures_delta)
    }

    /// A driver on `egui_ctx` with nothing run yet.
    pub fn new(egui_ctx: egui::Context) -> (r: FrameDriver)
        ensures
            r.frames_run() == 0,
            r.pending_shapes().len() == 0,
            r.pending_set() == Seq::<(bool, u64)>::empty(),
            r.pending_freed() == Seq::<(bool, u64)>::empty(),
    {
        FrameDriver { egui_ctx, shapes: Vec::new(), textures_delta: empty_delta(), frames: Ghost(0) }
    }

    /// Takes in what one frame produced: its shapes replace those held, its
    /// texture changes are added after those not yet painted.
    pub fn absorb(&mut self, shapes: Vec<egui::epaint::ClippedShape>, delta: egui::TexturesDelta)
        ensures
            final(self).frames_run() == old(self).frames_run() + 1,
            final(self).pending_shapes() == shapes@,
            final(self).pending_set() == old(self).pending_set() + textures_set(delta),
            final(self).pending_freed() == old(self).pending_freed() + textures_freed(delta),
    {
        self.shapes = shapes;
        append_delta(&mut self.textures_delta, delta);
        self.frames = Ghost(self.frames@ + 1);
    }

    /// Runs one frame of `ui` on `input` and takes in its output by
    /// `absorb`.
    pub fn run<F: FnMut(&egui::Context)>(&mut self, input: egui::RawInput, ui: &mut F) -> (r: egui::PlatformOutput)
        ensures
            final(self).frames_run() == old(self).frames_run() + 1,
            old(self).pending_set().is_prefix_of(final(self).pending_set()),
            old(self).pending_freed().is_prefix_of(final(self).pending_freed()),
    {
        let (shapes, textures_delta, platform_output) = run_context(&self.egui_ctx, input, ui);
        self.absorb(shapes, textures_delta);
        platform_output
    }

    /// Runs `n` frames of `ui`, each on a copy of `input`, so that effects
    /// that take a few frames to settle have settled.
    pub fn run_frames<F: FnMut(&egui::Context)>(&mut self, input: &egui::RawInput, n: usize, ui: &mut F)
        ensures
            final(self).frames_run() == old(self).frames_run() + n,
            old(self).pending_set().is_prefix_of(final(self).pending_set()),
            old(self).pending_freed().is_prefix_of(final(self).pending_freed()),
    {
        let ghost start_set = self.pending_set();
        let ghost start_freed = self.pending_freed();
        let mut i: usize = 0;
        while i < n
            invariant
                i <= n,
                self.frames_run() == old(self).frames_run() + i,
                start_set == old(self).pending_set(),
                start_freed == old(self).pending_freed(),
                start_set.is_prefix_of(self.pending_set()),
                start_freed.is_prefix_of(self.pending_freed()),
            decreases n - i,
        {
            let ghost before_set = self.pending_set();
            let ghost before_freed = self.pending_freed();
            self.run(copy_input(input), ui);
            proof {
                assert(start_set.is_prefix_of(self.pending_set())) by {
                    assert forall|k: int| 0 <= k < start_set.len() implies start_set[k] == self.pending_set()[k] by {
                        assert(start_set[k] == before_set[k]);
                    }
                }
                assert(start_freed.is_prefix_of(self.pending_freed())) by {
                    assert forall|k: int| 0 <= k < start_freed.len() implies start_freed[k] == self.pending_freed()[k] by {
                        assert(start_freed[k] == before_freed[k]);
                    }
                }
            }
            i = i + 1;
        }
    }

    /// Hands out the shapes and texture changes gathered since the last paint,
    /// for painting, and starts gathering afresh.
    pub fn take_frame(&mut self) -> (r: (Vec<egui::epaint::ClippedShape>, egui::TexturesDelta))
        ensures
            r.0@ == old(self).pending_shapes(),
            textures_set(r.1) == old(self).pending_set(),
            textures_freed(r.1) == old(self).pending_freed(),
            final(self).frames_run() == 0,
            final(self).pending_shapes().len() == 0,
            final(self).pending_set() == Seq::<(bool, u64)>::empty(),
            final(self).pending_freed() == Seq::<(bool, u64)>::empty(),
    {
        let mut shapes = Vec::new();
        let mut delta = empty_delta();
        std::mem::swap(&mut shapes, &mut self.shapes);
        std::mem::swap(&mut delta, &mut self.textures_delta);
        self.frames = Ghost(0);
        (shapes, delta)
    }
}

} // verus!
