use vstd::prelude::*;

verus! {

/// How many triangles one press of "Moar triangles" adds, and one press of
/// "Less triangles" takes away.
pub const TRIANGLE_BATCH: usize = 300;

/// How far one "Zoom in" / "Zoom out" moves the camera along its z axis.
pub const ZOOM_STEP: i32 = 200;

/// How far one press of "w" / "s" moves the camera along its z axis.
pub const KEY_STEP: i32 = 50;

/// What the page can be told: a frame is due, the window was resized, a
/// zoom button or a key was pressed, or triangles are to be added or removed.
#[derive(Clone, Debug)]
pub enum Msg {
    Render,
    Resize,
    Zoom(bool),
    KeyPressed(String),
    AddTriangles,
    RemoveTriangles,
}

/// What the page has to do outside the scene after a message.
#[derive(Clone, Copy, Debug, PartialEq, Eq, Structural)]
pub enum Command {
    /// Draw a frame and ask the browser for the next one.
    RenderFrame,
    /// Read the window's outer size into the canvas dimensions.
    MeasureWindow,
    /// Move the camera along its z axis by this distance.
    MoveCamera(i32),
    /// Make a batch of `TRIANGLE_BATCH` triangles and hand it to
    /// `Scene::add_triangles`.
    AddBatch,
    /// Nothing more.
    Nothing,
}

/// The command that a message asks for.
pub open spec fn command_for(msg: Msg) -> Command {
    match msg {
        Msg::Render => Command::RenderFrame,
        Msg::Resize => Command::MeasureWindow,
        Msg::Zoom(closer) => Command::MoveCamera(if closer { ZOOM_STEP } else { (-ZOOM_STEP) as i32 }),
        Msg::KeyPressed(key) => if key@ == "w"@ {
            Command::MoveCamera(KEY_STEP)
        } else if key@ == "s"@ {
            Command::MoveCamera((-KEY_STEP) as i32)
        } else {
            Command::Nothing
        },
        Msg::AddTriangles => Command::AddBatch,
        Msg::RemoveTriangles => Command::Nothing,
    }
}

/// Whether the page is to be rendered again after a message.
pub open spec fn rerenders(msg: Msg) -> bool {
    match msg {
        Msg::Resize | Msg::AddTriangles | Msg::RemoveTriangles => true,
        _ => false,
    }
}

/// How far a command moves the camera along its z axis.
pub open spec fn camera_shift(c: Command) -> int {
    match c {
        Command::MoveCamera(dz) => dz as int,
        _ => 0,
    }
}

/// The triangles after a batch has been added.
pub open spec fn with_batch<T>(s: Seq<T>, batch: Seq<T>) -> Seq<T> {
    s + batch
}

/// The triangles after the last batch has been taken away; no change when
/// there are none.
pub open spec fn without_last_batch<T>(s: Seq<T>) -> Seq<T> {
    if s.len() == 0 {
        s
    } else {
        s.take(s.len() - TRIANGLE_BATCH)
    }
}

/// The scene's triangles when `Scene::update` has answered a message; for
/// `AddTriangles` the batch is added afterwards by the caller, through
/// `Scene::add_triangles`.
pub open spec fn scene_after<T>(s: Seq<T>, msg: Msg) -> Seq<T> {
    match msg {
        Msg::RemoveTriangles => without_last_batch(s),
        _ => s,
    }
}

/// The instanced triangles of the scene, one transform each, in the order
/// in which they were added. They come and go in whole batches.
pub struct Scene<T> {
    tpos: Vec<T>,
}

impl<T> View for Scene<T> {
    type V = Seq<T>;

    closed spec fn view(&self) -> Seq<T> {
        self.tpos@
    }
}

impl<T> Scene<T> {
    #[verifier::type_invariant]
    spec fn whole_batches(self) -> bool {
        self.tpos@.len() % (TRIANGLE_BATCH as nat) == 0
    }

    /// A scene without triangles.
    pub fn new() -> (scene: Scene<T>)
        ensures
            scene@ == Seq::<T>::empty(),
    {
        Scene { tpos: Vec::new() }
    }

    /// The number of triangles; always a whole number of batches.
    pub fn len(&self) -> (n: usize)
        ensures
            n == self@.len(),
            n % TRIANGLE_BATCH == 0,
    {
        proof {
            use_type_invariant(self);
        }
        self.tpos.len()
    }

    /// The transform of triangle `i`.
    pub fn get(&self, i: usize) -> (t: &T)
        requires
            i < self@.len(),
        ensures
            *t == self@[i as int],
    {
        &self.tpos[i]
    }

    /// Replaces the transform of triangle `i`.
    pub fn set(&mut self, i: usize, t: T)
        requires
            i < old(self)@.len(),
        ensures
            final(self)@ == old(self)@.update(i as int, t),
    {
        proof {
            use_type_invariant(&*self);
        }
        let mut tpos = Vec::new();
        std::mem::swap(&mut tpos, &mut self.tpos);
        tpos.set(i, t);
        self.tpos = tpos;
    }

    /// Adds a batch of triangles after those already there.
    pub fn add_triangles(&mut self, batch: Vec<T>)
        requires
            batch@.len() == TRIANGLE_BATCH,
        ensures
            final(self)@ == with_batch(old(self)@, batch@),
            final(self)@.len() % (TRIANGLE_BATCH as nat) == 0,
    {
        proof {
            use_type_invariant(&*self);
        }
        let mut tpos = Vec::new();
        std::mem::swap(&mut tpos, &mut self.tpos);
        let mut batch = batch;
        tpos.append(&mut batch);
        proof {
            assert(tpos@.len() == old(self)@.len() + TRIANGLE_BATCH);
        }
        self.tpos = tpos;
    }

    /// Takes away the last batch of triangles, if there are any.
    pub fn remove_triangles(&mut self)
        ensures
            final(self)@ == without_last_batch(old(self)@),
            final(self)@.len() % (TRIANGLE_BATCH as nat) == 0,
            old(self)@.len() == 0 ==> final(self)@ == old(self)@,
            old(self)@.len() > 0 ==> final(self)@.len() + TRIANGLE_BATCH == old(self)@.len()
                && final(self)@ == old(self)@.subrange(0, final(self)@.len() as int),
    {
        proof {
            use_type_invariant(&*self);
        }
        if !(self.tpos.len() <= 0) {
            let mut tpos = Vec::new();
            std::mem::swap(&mut tpos, &mut self.tpos);
            let keep = tpos.len() - TRIANGLE_BATCH;
            tpos.truncate(keep);
            proof {
                assert(tpos@ =~= old(self)@.take(keep as int));
            }
            self.tpos = tpos;
        }
    }

    /// Answers a message: takes away the last batch for `RemoveTriangles`,
    /// and tells the page what else to do and whether to render again.
    pub fn update(&mut self, msg: &Msg) -> (reply: (Command, bool))
        ensures
            reply.0 == command_for(*msg),
            reply.1 == rerenders(*msg),
            final(self)@ == scene_after(old(self)@, *msg),
            final(self)@.len() % (TRIANGLE_BATCH as nat) == 0,
            !(*msg is RemoveTriangles) ==> final(self)@ == old(self)@,
            *msg is RemoveTriangles && old(self)@.len() == 0 ==> final(self)@ == old(self)@,
            *msg is RemoveTriangles && old(self)@.len() > 0 ==> final(self)@.len() + TRIANGLE_BATCH
                == old(self)@.len() && final(self)@ == old(self)@.subrange(0, final(self)@.len() as int),
    {
        proof {
            use_type_invariant(&*self);
        }
        match msg {
            Msg::Render => (Command::RenderFrame, false),
            Msg::Resize => (Command::MeasureWindow, true),
            Msg::Zoom(closer) => {
                if *closer {
                    (Command::MoveCamera(ZOOM_STEP), false)
                } else {
                    (Command::MoveCamera(-ZOOM_STEP), false)
                }
            },
            Msg::KeyPressed(key) => {
                let w = "w".to_owned();
                let s = "s".to_owned();
                if *key == w {
                    (Command::MoveCamera(KEY_STEP), false)
                } else if *key == s {
                    (Command::MoveCamera(-KEY_STEP), false)
                } else {
                    (Command::Nothing, false)
                }
            },
            Msg::AddTriangles => (Command::AddBatch, true),
            Msg::RemoveTriangles => {
                self.remove_triangles();
                (Command::Nothing, true)
            },
        }
    }
}

/// Taking away a batch right after adding one gives back the triangles
/// that were there before.
pub proof fn lemma_remove_undoes_add<T>(s: Seq<T>, batch: Seq<T>)
    requires
        batch.len() == TRIANGLE_BATCH,
    ensures
        without_last_batch(with_batch(s, batch)) == s,
{
    assert(with_batch(s, batch).take(s.len() as int) =~= s);
}

/// Taking away a batch from a non-empty scene of whole batches leaves
/// exactly one batch fewer: the triangles that came before the last batch,
/// in their order.
pub proof fn lemma_remove_takes_one_batch<T>(s: Seq<T>)
    requires
        s.len() % (TRIANGLE_BATCH as nat) == 0,
        s.len() > 0,
    ensures
        without_last_batch(s).len() + TRIANGLE_BATCH == s.len(),
        forall|i: int| 0 <= i < without_last_batch(s).len() ==> #[trigger] without_last_batch(s)[i] == s[i],
{
}

/// Taking away a batch from a scene without triangles changes nothing.
pub proof fn lemma_remove_from_empty<T>()
    ensures
        without_last_batch(Seq::<T>::empty()) == Seq::<T>::empty(),
{
}

/// Zooming out right after zooming in, or pressing "s" right after "w",
/// brings the camera back to where it was.
pub proof fn lemma_camera_round_trip(w: String, s: String)
    requires
        w@ == "w"@,
        s@ == "s"@,
    ensures
        camera_shift(command_for(Msg::Zoom(true))) + camera_shift(command_for(Msg::Zoom(false))) == 0,
        camera_shift(command_for(Msg::KeyPressed(w))) + camera_shift(command_for(Msg::KeyPressed(s))) == 0,
{
    reveal_strlit("w");
    reveal_strlit("s");
    assert("w"@ =~= seq!['w']);
    assert("s"@ =~= seq!['s']);
    assert("s"@ != "w"@) by {
        assert("s"@[0] != "w"@[0]);
    }
}

/// Every message leaves the scene in whole batches; only
/// `RemoveTriangles` changes it, and only the messages that change what
/// the page shows render it again.
pub proof fn lemma_only_removal_changes_scene<T>(s: Seq<T>, msg: Msg)
    ensures
        !(msg is RemoveTriangles) ==> scene_after(s, msg) == s,
        s.len() % (TRIANGLE_BATCH as nat) == 0 ==> scene_after(s, msg).len() % (TRIANGLE_BATCH as nat) == 0,
{
}

} // verus!
