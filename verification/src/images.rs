//! Decisions of the image viewer: how streamed images become the rgb image
//! and overlay layers it shows, how the image stream reacts to what the
//! socket delivers, which source it shows, and how it waits for its canvas.
use vstd::prelude::*;

verus! {

// ---------------------------------------------------------------- images

/// How the first channel of a decoded image becomes an rgb image.
#[derive(Clone, Copy, Debug, PartialEq, Eq, Structural)]
pub enum RgbConversion {
    /// A single 8-bit gray channel: every gray value becomes a gray pixel.
    ExpandGray,
    /// A single 8-bit channel of three elements per pixel is rgb already.
    Reinterpret,
    /// Any other layout is not shown.
    Unsupported,
}

/// Chooses the conversion by the channel's element type (8-bit or not), its
/// elements per pixel and the number of channels of the image.
pub fn rgb_conversion(is_u8: bool, pixel_elements: u8, channels: usize) -> (r: RgbConversion)
    ensures
        r == (if is_u8 && pixel_elements == 1 && channels == 1 {
            RgbConversion::ExpandGray
        } else if is_u8 && pixel_elements == 3 && channels == 1 {
            RgbConversion::Reinterpret
        } else {
            RgbConversion::Unsupported
        }),
{
    if is_u8 && pixel_elements == 1 && channels == 1 {
        RgbConversion::ExpandGray
    } else if is_u8 && pixel_elements == 3 && channels == 1 {
        RgbConversion::Reinterpret
    } else {
        RgbConversion::Unsupported
    }
}

/// The rgb pixels of a gray image: each gray value repeated in all three
/// color components, in the same order.
pub fn expand_gray(gray: &[u8]) -> (r: Vec<[u8; 3]>)
    ensures
        r@.len() == gray@.len(),
        forall|i: int| 0 <= i < gray@.len() ==> #[trigger] r@[i] == [gray@[i], gray@[i], gray@[i]],
{
    let mut pixels: Vec<[u8; 3]> = Vec::new();
    let mut i: usize = 0;
    while i < gray.len()
        invariant
            0 <= i <= gray@.len(),
            pixels@.len() == i,
            forall|j: int| 0 <= j < i ==> #[trigger] pixels@[j] == [gray@[j], gray@[j], gray@[j]],
        decreases gray@.len() - i,
    {
        let c = gray[i];
        pixels.push([c, c, c]);
        i = i + 1;
    }
    pixels
}

/// The overlay layers of an image: the dense range masks first, then the
/// pixel areas, numbered from zero in that order.
pub fn assign_layers<A>(ranges: Vec<A>, areas: Vec<A>) -> (r: Vec<(usize, A)>)
    requires
        ranges@.len() + areas@.len() <= usize::MAX,
    ensures
        r@.len() == ranges@.len() + areas@.len(),
        forall|i: int| 0 <= i < r@.len() ==> (#[trigger] r@[i]).0 == i,
        forall|i: int| 0 <= i < ranges@.len() ==> (#[trigger] r@[i]).1 == ranges@[i],
        forall|i: int|
            0 <= i < areas@.len() ==> (#[trigger] r@[ranges@.len() + i]).1 == areas@[i],
{
    let ghost all = ranges@ + areas@;
    let mut rest = ranges;
    let mut tail = areas;
    rest.append(&mut tail);
    assert(rest@ =~= all);
    let mut layers: Vec<(usize, A)> = Vec::new();
    let mut layer: usize = 0;
    while rest.len() > 0
        invariant
            rest@.len() <= all.len(),
            all.len() <= usize::MAX,
            layer == all.len() - rest@.len(),
            rest@ == all.skip(layer as int),
            layers@.len() == layer,
            forall|i: int| 0 <= i < layer ==> (#[trigger] layers@[i]).0 == i && layers@[i].1 == all[i],
        decreases rest@.len(),
    {
        let a = rest.remove(0);
        proof {
            assert(all[layer as int] == a);
            assert(rest@ =~= all.skip(layer + 1));
        }
        layers.push((layer, a));
        layer = layer + 1;
    }
    proof {
        assert forall|i: int| 0 <= i < areas@.len() implies (#[trigger] layers@[ranges@.len() + i]).1
            == areas@[i] by {
            assert(all[ranges@.len() + i] == areas@[i]);
        }
    }
    layers
}

/// What became of a streamed image.
#[derive(Clone, Copy, Debug, PartialEq, Eq, Structural)]
pub enum StreamImageKind {
    /// The image came with its metadata.
    Image,
    /// Frames were missed; no image.
    MissedItems,
    /// Processing failed, but the image itself came along.
    ProcessingError,
    /// Any other stream error.
    OtherError,
}

/// What the viewer shows of a streamed image.
#[derive(Clone, Copy, Debug, PartialEq, Eq, Structural)]
pub enum ShownImage {
    /// The image with its overlays.
    WithOverlays,
    /// The image of a failed processing, without overlays.
    PlainImage,
    /// Nothing; the error is passed on.
    Fail,
}

/// The viewer shows an image with its overlays, the image of a failed
/// processing without them, and fails on everything else.
pub fn shown_image(kind: StreamImageKind) -> (r: ShownImage)
    ensures
        r == (match kind {
            StreamImageKind::Image => ShownImage::WithOverlays,
            StreamImageKind::ProcessingError => ShownImage::PlainImage,
            _ => ShownImage::Fail,
        }),
{
    match kind {
        StreamImageKind::Image => ShownImage::WithOverlays,
        StreamImageKind::ProcessingError => ShownImage::PlainImage,
        _ => ShownImage::Fail,
    }
}

// ---------------------------------------------------------------- stream

/// What the suspensible socket delivered to the image stream.
#[derive(Clone, Copy, Debug, PartialEq, Eq, Structural)]
pub enum SocketItem {
    Bytes,
    OtherMessage,
    Suspended,
    SocketError,
    Closed,
}

/// What the image stream does with a socket item.
#[derive(Clone, Copy, Debug, PartialEq, Eq, Structural)]
pub enum SocketItemStep {
    /// Decode the bytes as an image.
    Decode,
    /// Wait for the next item.
    Skip,
    /// Yield the error, then end.
    FailThenEnd,
    /// End the stream.
    End,
}

/// The reaction of the image stream to a socket item, as a table.
pub open spec fn on_socket_item_spec(item: SocketItem) -> SocketItemStep {
    match item {
        SocketItem::Bytes => SocketItemStep::Decode,
        SocketItem::OtherMessage => SocketItemStep::Skip,
        SocketItem::Suspended => SocketItemStep::Skip,
        SocketItem::SocketError => SocketItemStep::FailThenEnd,
        SocketItem::Closed => SocketItemStep::End,
    }
}

/// Only bytes are decoded; other messages and suspensions are skipped; a
/// socket error is passed on once before the stream ends; a closed socket
/// ends it.
pub fn on_socket_item(item: SocketItem) -> (r: SocketItemStep)
    ensures
        r == on_socket_item_spec(item),
{
    match item {
        SocketItem::Bytes => SocketItemStep::Decode,
        SocketItem::OtherMessage => SocketItemStep::Skip,
        SocketItem::Suspended => SocketItemStep::Skip,
        SocketItem::SocketError => SocketItemStep::FailThenEnd,
        SocketItem::Closed => SocketItemStep::End,
    }
}

/// What decoding a message gave.
#[derive(Clone, Copy, Debug, PartialEq, Eq, Structural)]
pub enum Decoded {
    /// Decoding failed.
    DecodeFailed,
    /// The decoder gave a streamed image of this kind.
    Stream(StreamImageKind),
}

/// What the image stream does with a decoded message.
#[derive(Clone, Copy, Debug, PartialEq, Eq, Structural)]
pub enum DecodedStep {
    /// Clear the shown error and yield the image.
    YieldImage,
    /// Wait for the next message.
    Skip,
    /// Show the processing error and yield it with its image.
    YieldProcessingError,
    /// Yield the error; the stream goes on.
    YieldError,
}

/// The reaction of the image stream to a decoded message, as a table.
pub open spec fn on_decoded_spec(decoded: Decoded) -> DecodedStep {
    match decoded {
        Decoded::Stream(StreamImageKind::Image) => DecodedStep::YieldImage,
        Decoded::Stream(StreamImageKind::MissedItems) => DecodedStep::Skip,
        Decoded::Stream(StreamImageKind::ProcessingError) => DecodedStep::YieldProcessingError,
        _ => DecodedStep::YieldError,
    }
}

/// An image clears the error and is yielded; missed frames are skipped; a
/// processing error is shown and yielded with its image; other failures are
/// yielded as errors without ending the stream.
pub fn on_decoded(decoded: Decoded) -> (r: DecodedStep)
    ensures
        r == on_decoded_spec(decoded),
{
    match decoded {
        Decoded::Stream(StreamImageKind::Image) => DecodedStep::YieldImage,
        Decoded::Stream(StreamImageKind::MissedItems) => DecodedStep::Skip,
        Decoded::Stream(StreamImageKind::ProcessingError) => DecodedStep::YieldProcessingError,
        _ => DecodedStep::YieldError,
    }
}

// ---------------------------------------------------------------- source

/// Why no image source could be chosen.
#[derive(Clone, Copy, Debug, PartialEq, Eq, Structural)]
pub struct NoSource;

/// The source to show: the chosen one, else the first available one (if the
/// list of available sources was loaded and is not empty).
pub fn choose_source(url: Option<String>, available: Option<&Vec<String>>) -> (r: Result<
    String,
    NoSource,
>)
    ensures
        match url {
            Some(u) => r == Ok::<String, NoSource>(u),
            None => match available {
                Some(list) => if list@.len() > 0 {
                    r == Ok::<String, NoSource>(list@[0])
                } else {
                    r == Err::<String, NoSource>(NoSource)
                },
                None => r == Err::<String, NoSource>(NoSource),
            },
        },
{
    match url {
        Some(u) => Ok(u),
        None => match available {
            Some(list) => {
                if list.len() > 0 {
                    Ok(list[0].clone())
                } else {
                    Err(NoSource)
                }
            },
            None => Err(NoSource),
        },
    }
}

/// Whether the first available source becomes the chosen one: only where
/// the source can be set, none is chosen yet and some are available.
pub fn preselect_first(can_set: bool, has_url: bool, available_count: usize) -> (r: bool)
    ensures
        r == (can_set && !has_url && available_count > 0),
{
    can_set && !has_url && available_count > 0
}

// ---------------------------------------------------------------- waiting

/// How often the stream looks for its viewer before it gives up on an image.
pub const VIEWER_ATTEMPTS: u32 = 10;

/// What a look for the viewer gives.
#[derive(Clone, Copy, Debug, PartialEq, Eq, Structural)]
pub enum ViewerWait {
    /// The viewer signal is gone: stop with an error.
    Gone,
    /// The viewer is there: use it.
    Ready,
    /// Not there yet: wait a moment and look again.
    Retry,
    /// Looked often enough: skip this image.
    GiveUp,
}

/// The step after the look number `attempt` (counted from zero).
pub fn viewer_wait(attempt: u32, readable: bool, ready: bool) -> (r: ViewerWait)
    ensures
        attempt >= VIEWER_ATTEMPTS ==> r == ViewerWait::GiveUp,
        attempt < VIEWER_ATTEMPTS ==> r == (if !readable {
            ViewerWait::Gone
        } else if ready {
            ViewerWait::Ready
        } else {
            ViewerWait::Retry
        }),
{
    if attempt >= VIEWER_ATTEMPTS {
        ViewerWait::GiveUp
    } else if !readable {
        ViewerWait::Gone
    } else if ready {
        ViewerWait::Ready
    } else {
        ViewerWait::Retry
    }
}

// ---------------------------------------------------------------- editing

/// What the viewer does when the overlays were edited.
#[derive(Clone, Copy, Debug, PartialEq, Eq, Structural)]
pub enum EditStep {
    /// Start the change listener on the edit.
    StartListener,
    /// A listener runs still: the edit is ignored (with a warning).
    Ignore,
}

/// One change listener at a time: an edit starts it unless one runs.
pub fn on_overlay_edit(listener_running: bool) -> (r: EditStep)
    ensures
        r == (if listener_running {
            EditStep::Ignore
        } else {
            EditStep::StartListener
        }),
{
    if listener_running {
        EditStep::Ignore
    } else {
        EditStep::StartListener
    }
}

/// The active overlay layer to announce, if it changed since the last frame.
pub fn changed_active_layer(current: Option<usize>, last: Option<usize>) -> (r: Option<Option<usize>>)
    ensures
        r == (if current == last {
            None
        } else {
            Some(current)
        }),
{
    if current == last {
        None
    } else {
        Some(current)
    }
}

/// Once the stream's socket failed it yields that failure and nothing after
/// it; exactly the missed frames never reach the viewer; a suspension never
/// ends it.
pub proof fn lemma_stream_reactions()
    ensures
        forall|item: SocketItem|
            #![trigger on_socket_item_spec(item)]
            on_socket_item_spec(item) == SocketItemStep::End || on_socket_item_spec(item)
                == SocketItemStep::FailThenEnd <==> item == SocketItem::SocketError || item
                == SocketItem::Closed,
        on_socket_item_spec(SocketItem::Suspended) == SocketItemStep::Skip,
        on_decoded_spec(Decoded::Stream(StreamImageKind::MissedItems)) == DecodedStep::Skip,
        forall|d: Decoded|
            #![trigger on_decoded_spec(d)]
            on_decoded_spec(d) == DecodedStep::Skip <==> d == Decoded::Stream(
                StreamImageKind::MissedItems,
            ),
{
}

/// Only an image clears the shown error and is yielded as an image; only a
/// processing error is yielded with its image; a message that failed to
/// decode or any other stream error is yielded as an error.
pub proof fn lemma_decoded_reactions(d: Decoded)
    ensures
        on_decoded_spec(d) == DecodedStep::YieldImage <==> d == Decoded::Stream(StreamImageKind::Image),
        on_decoded_spec(d) == DecodedStep::YieldProcessingError <==> d == Decoded::Stream(
            StreamImageKind::ProcessingError,
        ),
        on_decoded_spec(d) == DecodedStep::YieldError <==> d == Decoded::DecodeFailed || d
            == Decoded::Stream(StreamImageKind::OtherError),
        on_decoded_spec(d) == DecodedStep::Skip <==> d == Decoded::Stream(StreamImageKind::MissedItems),
{
}

// ---------------------------------------------------------------- deferred work

/// What the viewer does with work on the loaded image.
#[derive(Clone, Copy, Debug, PartialEq, Eq, Structural)]
pub enum LoadedStep {
    /// An image is loaded: run the work on it now.
    RunNow,
    /// No image yet: keep the work until one is loaded.
    Defer,
}

/// Work on the loaded image runs at once if an image is loaded, and waits
/// for the next loaded image otherwise.
pub fn with_loaded_step(loaded: bool) -> (r: LoadedStep)
    ensures
        r == (if loaded {
            LoadedStep::RunNow
        } else {
            LoadedStep::Defer
        }),
{
    if loaded {
        LoadedStep::RunNow
    } else {
        LoadedStep::Defer
    }
}

/// The work waiting for an image to be loaded, oldest first.
pub struct PendingOnLoad<F> {
    waiting: Vec<F>,
}

impl<F> View for PendingOnLoad<F> {
    type V = Seq<F>;

    closed spec fn view(&self) -> Seq<F> {
        self.waiting@
    }
}

impl<F> PendingOnLoad<F> {
    /// Nothing waits.
    pub fn new() -> (r: Self)
        ensures
            r@ == Seq::<F>::empty(),
    {
        PendingOnLoad { waiting: Vec::new() }
    }

    /// Keeps `work` until an image is loaded.
    pub fn defer(&mut self, work: F)
        ensures
            final(self)@ == old(self)@.push(work),
    {
        self.waiting.push(work);
    }

    /// Once an image is loaded: all waiting work, in the order it was
    /// deferred; nothing waits afterwards.
    pub fn take_all(&mut self) -> (r: Vec<F>)
        ensures
            r@ == old(self)@,
            final(self)@ == Seq::<F>::empty(),
    {
        let mut taken = Vec::new();
        std::mem::swap(&mut taken, &mut self.waiting);
        taken
    }

    /// Whether work waits.
    pub fn is_empty(&self) -> (r: bool)
        ensures
            r == (self@.len() == 0),
    {
        self.waiting.len() == 0
    }
}

/// What one frame of the viewer does.
pub struct FrameStep<F> {
    /// Start the change listener on the edited overlays.
    pub start_listener: bool,
    /// The overlays were edited while a listener still runs: the edit is
    /// ignored (with a warning).
    pub ignored_edit: bool,
    /// The deferred work to run on the loaded image now, oldest first.
    pub run: Vec<F>,
    /// The active overlay layer to announce, if it changed.
    pub announce: Option<Option<usize>>,
}

/// The state the viewer keeps from frame to frame: whether a change
/// listener runs, the active layer announced last, the work waiting for an
/// image, the commands sent to the viewer (oldest first) and whether the
/// current frame took one already.
pub struct ViewerFrame<F, C> {
    listener_running: bool,
    last_layer: Option<usize>,
    pending: PendingOnLoad<F>,
    commands: Vec<C>,
    command_taken: bool,
}

impl<F, C> ViewerFrame<F, C> {
    /// The commands waiting, oldest first.
    pub closed spec fn spec_commands(self) -> Seq<C> {
        self.commands@
    }

    /// Whether the current frame took a command already.
    pub closed spec fn spec_command_taken(self) -> bool {
        self.command_taken
    }

    /// Sends a command to the viewer; frames run them one at a time, oldest
    /// first.
    pub fn send(&mut self, command: C)
        ensures
            final(self).spec_commands() == old(self).spec_commands().push(command),
            final(self).spec_command_taken() == old(self).spec_command_taken(),
            final(self).spec_listener_running() == old(self).spec_listener_running(),
            final(self).spec_last_layer() == old(self).spec_last_layer(),
            final(self).spec_pending() == old(self).spec_pending(),
    {
        self.commands.push(command);
    }

    /// The start of a frame: the oldest waiting command, to run first, if
    /// the frame took none yet. A frame runs at most one command.
    pub fn start_frame(&mut self) -> (r: Option<C>)
        ensures
            old(self).spec_command_taken() || old(self).spec_commands().len() == 0 ==> r is None
                && final(self).spec_commands() == old(self).spec_commands()
                && final(self).spec_command_taken() == old(self).spec_command_taken(),
            !old(self).spec_command_taken() && old(self).spec_commands().len() > 0 ==> r == Some(
                old(self).spec_commands()[0],
            ) && final(self).spec_commands() == old(self).spec_commands().drop_first()
                && final(self).spec_command_taken(),
            final(self).spec_listener_running() == old(self).spec_listener_running(),
            final(self).spec_last_layer() == old(self).spec_last_layer(),
            final(self).spec_pending() == old(self).spec_pending(),
    {
        if self.command_taken || self.commands.len() == 0 {
            return None;
        }
        let command = self.commands.remove(0);
        self.command_taken = true;
        Some(command)
    }

    /// Whether a change listener runs.
    pub closed spec fn spec_listener_running(self) -> bool {
        self.listener_running
    }

    /// The active layer announced last.
    pub closed spec fn spec_last_layer(self) -> Option<usize> {
        self.last_layer
    }

    /// The work waiting for an image, oldest first.
    pub closed spec fn spec_pending(self) -> Seq<F> {
        self.pending@
    }

    /// A viewer before its first frame.
    pub fn new() -> (r: Self)
        ensures
            !r.spec_listener_running(),
            r.spec_last_layer() is None,
            r.spec_pending() == Seq::<F>::empty(),
            r.spec_commands() == Seq::<C>::empty(),
            !r.spec_command_taken(),
    {
        ViewerFrame {
            listener_running: false,
            last_layer: None,
            pending: PendingOnLoad::new(),
            commands: Vec::new(),
            command_taken: false,
        }
    }

    /// Work on the loaded image: handed back to run at once if an image is
    /// loaded, kept for the next frame with an image otherwise.
    pub fn with_loaded_state(&mut self, loaded: bool, work: F) -> (r: Option<F>)
        ensures
            final(self).spec_listener_running() == old(self).spec_listener_running(),
            final(self).spec_last_layer() == old(self).spec_last_layer(),
            final(self).spec_commands() == old(self).spec_commands(),
            final(self).spec_command_taken() == old(self).spec_command_taken(),
            loaded ==> r == Some(work) && final(self).spec_pending() == old(self).spec_pending(),
            !loaded ==> r is None && final(self).spec_pending() == old(self).spec_pending().push(work),
    {
        match with_loaded_step(loaded) {
            LoadedStep::RunNow => Some(work),
            LoadedStep::Defer => {
                self.pending.defer(work);
                None
            },
        }
    }

    /// The rest of a frame, after its command (if any) ran. With an image
    /// loaded: an edit of the overlays (`dirty`)
    /// starts a change listener unless one runs, in which case the edit is
    /// ignored; a running listener that reports `listener_done` is over; all
    /// deferred work runs, in the order it was deferred. In every frame a
    /// change of the active layer is announced.
    pub fn frame(&mut self, loaded: bool, dirty: bool, listener_done: bool, active_layer: Option<usize>) -> (r:
        FrameStep<F>)
        ensures
            r.start_listener == (loaded && dirty && !old(self).spec_listener_running()),
            r.ignored_edit == (loaded && dirty && old(self).spec_listener_running()),
            final(self).spec_listener_running() == (if loaded {
                (old(self).spec_listener_running() || dirty) && !listener_done
            } else {
                old(self).spec_listener_running()
            }),
            r.run@ == (if loaded {
                old(self).spec_pending()
            } else {
                Seq::<F>::empty()
            }),
            final(self).spec_pending() == (if loaded {
                Seq::<F>::empty()
            } else {
                old(self).spec_pending()
            }),
            r.announce == (if active_layer == old(self).spec_last_layer() {
                None
            } else {
                Some(active_layer)
            }),
            final(self).spec_last_layer() == active_layer,
            final(self).spec_commands() == old(self).spec_commands(),
            !final(self).spec_command_taken(),
    {
        let mut start_listener = false;
        let mut ignored_edit = false;
        let mut run = Vec::new();
        if loaded {
            if dirty {
                match on_overlay_edit(self.listener_running) {
                    EditStep::StartListener => {
                        start_listener = true;
                        self.listener_running = true;
                    },
                    EditStep::Ignore => {
                        ignored_edit = true;
                    },
                }
            }
            if self.listener_running && listener_done {
                self.listener_running = false;
            }
            run = self.pending.take_all();
        }
        let announce = changed_active_layer(active_layer, self.last_layer);
        self.last_layer = active_layer;
        self.command_taken = false;
        FrameStep { start_listener, ignored_edit, run, announce }
    }
}

} // verus!
