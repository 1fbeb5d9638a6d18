//! The bridge's record of its surface, and the calls that a script makes on it.
//!
//! The surface itself lives with the caller. Every function here takes what
//! the script passed, or what the surface reported, and says what follows:
//! the failure that the script is to see, or what the caller is to do with
//! the surface.

use vstd::prelude::*;
use crate::error::ScriptError;
use crate::options::WindowOptions;
use crate::pixels::{frame_bytes, is_native_view, size_refusal, update_window_buffer, PixelView};
use crate::value::{ScriptObject, ScriptValue};

verus! {

/// The width of a window that a script creates without saying more.
pub const DEFAULT_WIDTH: usize = 500;

/// The height of a window that a script creates without saying more.
pub const DEFAULT_HEIGHT: usize = 500;

/// The surface that the caller is asked to create.
#[derive(Debug)]
pub struct SurfaceRequest {
    /// The text in the title bar.
    pub title: String,
    /// The width of the window, in pixels.
    pub width: usize,
    /// The height of the window, in pixels.
    pub height: usize,
    /// The settings, handed on as they came.
    pub options: WindowOptions,
}

impl SurfaceRequest {
    /// Asks for a surface with the given title, size and settings.
    pub fn new(name: &str, width: usize, height: usize, opts: WindowOptions) -> (request:
        SurfaceRequest)
        ensures
            request.title@ == name@,
            request.width == width,
            request.height == height,
            request.options == opts,
    {
        SurfaceRequest { title: name.to_owned(), width, height, options: opts }
    }
}

/// How the attempt to create a surface ended.
#[derive(Clone, Copy, Debug, PartialEq, Eq, Structural)]
pub enum SurfaceCreation {
    /// The surface exists.
    Created,
    /// The system could not create it.
    Failed,
}

/// What a window is, to a contract.
pub struct WindowState {
    /// The text in the title bar.
    pub title: Seq<char>,
    /// The width that was asked for.
    pub width: usize,
    /// The height that was asked for.
    pub height: usize,
    /// The settings that were asked for.
    pub options: WindowOptions,
    /// The least number of milliseconds between two updates, if there is one.
    pub update_rate_limit: Option<u64>,
    /// Whether the surface was open when it last reported.
    pub open: bool,
}

impl WindowState {
    /// The state of a window whose surface has just been created: open and unthrottled.
    pub open spec fn fresh(request: SurfaceRequest) -> WindowState {
        WindowState {
            title: request.title@,
            width: request.width,
            height: request.height,
            options: request.options,
            update_rate_limit: None,
            open: true,
        }
    }

    /// This state with another refresh limit.
    pub open spec fn with_update_rate_limit(self, limit: Option<u64>) -> WindowState {
        WindowState { update_rate_limit: limit, ..self }
    }

    /// This state after the surface has reported whether it is open.
    pub open spec fn with_open(self, open: bool) -> WindowState {
        WindowState { open, ..self }
    }
}

/// The bridge's record of one surface.
///
/// A window exists only for a surface that was created, and it changes only
/// through its own methods.
#[derive(Debug)]
pub struct Window {
    request: SurfaceRequest,
    update_rate_limit: Option<u64>,
    open: bool,
}

impl View for Window {
    type V = WindowState;

    closed spec fn view(&self) -> WindowState {
        WindowState {
            title: self.request.title@,
            width: self.request.width,
            height: self.request.height,
            options: self.request.options,
            update_rate_limit: self.update_rate_limit,
            open: self.open,
        }
    }
}

impl Window {
    /// Makes the record of a surface, once the caller has tried to create it.
    ///
    /// A surface that could not be created is a failure for the script to
    /// catch. One that was created is open and unthrottled.
    pub fn new(request: SurfaceRequest, surface: SurfaceCreation) -> (r: Result<
        Window,
        ScriptError,
    >)
        ensures
            match surface {
                SurfaceCreation::Created => r matches Ok(window) && window@ == WindowState::fresh(
                    request,
                ),
                SurfaceCreation::Failed => r == Err::<Window, ScriptError>(
                    ScriptError::SurfaceUnavailable,
                ),
            },
    {
        match surface {
            SurfaceCreation::Created => Ok(Window { request, update_rate_limit: None, open: true }),
            SurfaceCreation::Failed => Err(ScriptError::SurfaceUnavailable),
        }
    }

    /// The text in the title bar.
    pub fn title(&self) -> (title: &str)
        ensures
            title@ == self@.title,
    {
        self.request.title.as_str()
    }

    /// The width that was asked for.
    pub fn width(&self) -> (width: usize)
        ensures
            width == self@.width,
    {
        self.request.width
    }

    /// The height that was asked for.
    pub fn height(&self) -> (height: usize)
        ensures
            height == self@.height,
    {
        self.request.height
    }

    /// The settings that were asked for.
    pub fn options(&self) -> (options: WindowOptions)
        ensures
            options == self@.options,
    {
        self.request.options
    }

    /// The least number of milliseconds between two updates, if there is one.
    pub fn update_rate_limit(&self) -> (limit: Option<u64>)
        ensures
            limit == self@.update_rate_limit,
    {
        self.update_rate_limit
    }

    /// Whether the surface was open when it last reported.
    pub fn is_open(&self) -> (open: bool)
        ensures
            open == self@.open,
    {
        self.open
    }

    /// Records the refresh limit that the surface now has.
    pub fn limit_update_rate(&mut self, limit: Option<u64>)
        ensures
            final(self)@ == old(self)@.with_update_rate_limit(limit),
    {
        self.update_rate_limit = limit;
    }

    /// Records what the surface reports of itself: open, or closed.
    pub fn record_surface_state(&mut self, open: bool)
        ensures
            final(self)@ == old(self)@.with_open(open),
    {
        self.open = open;
    }
}

/// A member of a window object that a script can call.
#[derive(Clone, Copy, Debug, PartialEq, Eq, Structural)]
pub enum Member {
    /// Sets or clears the least interval between two updates.
    LimitUpdateRateMs,
    /// Tells whether the window is open.
    IsOpen,
    /// Shows one frame.
    UpdateWithBuffer,
}

impl Member {
    /// The name under which a script finds the member.
    pub open spec fn spec_name(self) -> Seq<char> {
        match self {
            Member::LimitUpdateRateMs => "limitUpdateRateMs"@,
            Member::IsOpen => "isOpen"@,
            Member::UpdateWithBuffer => "updateWithBuffer"@,
        }
    }

    /// The name under which a script finds the member.
    pub fn name(&self) -> (name: &'static str)
        ensures
            name@ == self.spec_name(),
    {
        match self {
            Member::LimitUpdateRateMs => "limitUpdateRateMs",
            Member::IsOpen => "isOpen",
            Member::UpdateWithBuffer => "updateWithBuffer",
        }
    }
}

/// The members that a window object gets, in the order in which it gets them.
pub fn initialize_window_object() -> (members: Vec<Member>)
    ensures
        members@ == seq![Member::LimitUpdateRateMs, Member::IsOpen, Member::UpdateWithBuffer],
{
    let mut members: Vec<Member> = Vec::new();
    members.push(Member::LimitUpdateRateMs);
    members.push(Member::IsOpen);
    members.push(Member::UpdateWithBuffer);
    members
}

/// The surface that a script asks for when it constructs a window: untitled,
/// of the default size, with the standard settings.
pub fn constructor() -> (request: SurfaceRequest)
    ensures
        request.title@.len() == 0,
        request.width == DEFAULT_WIDTH,
        request.height == DEFAULT_HEIGHT,
        request.options == WindowOptions::standard(),
{
    proof {
        reveal_strlit("");
    }
    SurfaceRequest::new("", DEFAULT_WIDTH, DEFAULT_HEIGHT, WindowOptions::default())
}

/// What a call has for its receiver: the window, or the failure.
pub open spec fn receiver<'a>(this: ScriptValue<'a>) -> Result<Window, ScriptError> {
    if this.is_window() {
        Ok(this.window())
    } else {
        Err(ScriptError::NotAWindow)
    }
}

/// Checks that the receiver of a call is a window, and hands it out.
pub fn downcast_this<'a>(this: &ScriptValue<'a>) -> (r: Result<&'a Window, ScriptError>)
    ensures
        match r {
            Ok(window) => receiver(*this) == Ok::<Window, ScriptError>(*window),
            Err(e) => receiver(*this) == Err::<Window, ScriptError>(e),
        },
{
    match this {
        ScriptValue::Object(ScriptObject::Window(window)) => Ok(*window),
        _ => Err(ScriptError::NotAWindow),
    }
}

/// What the arguments of `limitUpdateRateMs` ask for: an interval in
/// milliseconds, no interval where the argument is left out or `undefined`,
/// and a failure where it is anything else.
pub open spec fn update_rate_argument<'a>(args: Seq<ScriptValue<'a>>) -> Result<
    Option<u64>,
    ScriptError,
> {
    if args.len() == 0 {
        Ok(None)
    } else {
        match args[0] {
            ScriptValue::Number(ms) => Ok(Some(ms)),
            ScriptValue::Undefined => Ok(None),
            _ => Err(ScriptError::InvalidUpdateRate),
        }
    }
}

/// What a call of `limitUpdateRateMs` comes to.
pub open spec fn limit_update_rate_reply<'a>(
    this: ScriptValue<'a>,
    args: Seq<ScriptValue<'a>>,
) -> Result<Option<u64>, ScriptError> {
    if this.is_window() {
        update_rate_argument(args)
    } else {
        Err(ScriptError::NotAWindow)
    }
}

/// The script calls `limitUpdateRateMs`.
///
/// On success the caller sets the surface's least interval between two
/// updates to the returned number of milliseconds, or lifts it where `None`
/// is returned, and records the same on the window.
pub fn limit_update_rate_ms<'a>(this: &ScriptValue<'a>, args: &[ScriptValue<'a>]) -> (r: Result<
    Option<u64>,
    ScriptError,
>)
    ensures
        r == limit_update_rate_reply(*this, args@),
{
    match downcast_this(this) {
        Ok(_) => {
            if args.len() == 0 {
                Ok(None)
            } else {
                match args[0] {
                    ScriptValue::Number(ms) => Ok(Some(ms)),
                    ScriptValue::Undefined => Ok(None),
                    _ => Err(ScriptError::InvalidUpdateRate),
                }
            }
        },
        Err(e) => Err(e),
    }
}

/// What a call of `isOpen` comes to.
pub open spec fn is_open_reply<'a>(this: ScriptValue<'a>) -> Result<bool, ScriptError> {
    if this.is_window() {
        Ok(this.window()@.open)
    } else {
        Err(ScriptError::NotAWindow)
    }
}

/// The script calls `isOpen`.
pub fn is_open<'a>(this: &ScriptValue<'a>) -> (r: Result<bool, ScriptError>)
    ensures
        r == is_open_reply(*this),
{
    match downcast_this(this) {
        Ok(window) => Ok(window.is_open()),
        Err(e) => Err(e),
    }
}

/// The bytes that `updateWithBuffer` is given to show.
pub open spec fn buffer_argument<'a>(args: Seq<ScriptValue<'a>>) -> Result<Seq<u8>, ScriptError> {
    if args.len() == 0 {
        Err(ScriptError::MissingArrayBuffer)
    } else {
        match args[0] {
            ScriptValue::Object(ScriptObject::ArrayBuffer(bytes)) => Ok(bytes@),
            ScriptValue::Object(_) => Err(ScriptError::NotAnArrayBuffer),
            _ => Err(ScriptError::MissingArrayBuffer),
        }
    }
}

/// A script's number as a count of pixels: itself, or the largest count that
/// the machine has where it is larger.
pub open spec fn pixel_count(number: u64) -> usize {
    if number > usize::MAX {
        usize::MAX
    } else {
        number as usize
    }
}

/// The width and height that `updateWithBuffer` is given.
pub open spec fn dimension_arguments<'a>(args: Seq<ScriptValue<'a>>) -> Result<
    (usize, usize),
    ScriptError,
> {
    if args.len() >= 3 && args[1] is Number && args[2] is Number {
        Ok((pixel_count(args[1]->Number_0), pixel_count(args[2]->Number_0)))
    } else {
        Err(ScriptError::InvalidDimensions)
    }
}

/// Why a call of `updateWithBuffer` shows nothing, if it does not.
///
/// The receiver is looked at first, then the buffer, then width and height,
/// then whether the window is still open, and last whether the buffer holds
/// the frame.
pub open spec fn update_refusal<'a>(this: ScriptValue<'a>, args: Seq<ScriptValue<'a>>) -> Option<
    ScriptError,
> {
    if !this.is_window() {
        Some(ScriptError::NotAWindow)
    } else if buffer_argument(args) is Err {
        Some(buffer_argument(args)->Err_0)
    } else if dimension_arguments(args) is Err {
        Some(dimension_arguments(args)->Err_0)
    } else if !this.window()@.open {
        Some(ScriptError::WindowClosed)
    } else {
        size_refusal(
            buffer_argument(args)->Ok_0.len(),
            dimension_arguments(args)->Ok_0.0,
            dimension_arguments(args)->Ok_0.1,
        )
    }
}

/// One frame for the surface to show.
#[derive(Debug)]
pub struct Frame<'a> {
    /// The pixels of the buffer, row by row: at least `width * height` of them.
    pub pixels: PixelView<'a>,
    /// The number of pixels in a row.
    pub width: usize,
    /// The number of rows.
    pub height: usize,
}

/// Cuts a script's number down to a count of pixels.
fn to_pixel_count(number: u64) -> (count: usize)
    ensures
        count == pixel_count(number),
{
    if number > usize::MAX as u64 {
        usize::MAX
    } else {
        number as usize
    }
}

/// The script calls `updateWithBuffer`.
///
/// On success the caller shows the returned frame on the surface. The frame
/// holds the pixels of the whole buffer, each made of four consecutive bytes
/// in the byte order of the machine, and the width and height that the script
/// gave. The buffer is only read, and for no longer than the frame lives.
pub fn update_with_buffer<'a>(this: &ScriptValue<'a>, args: &[ScriptValue<'a>]) -> (r: Result<
    Frame<'a>,
    ScriptError,
>)
    ensures
        match r {
            Ok(frame) => {
                &&& update_refusal(*this, args@) is None
                &&& frame.width == dimension_arguments(args@)->Ok_0.0
                &&& frame.height == dimension_arguments(args@)->Ok_0.1
                &&& frame.pixels@.len() == buffer_argument(args@)->Ok_0.len() / 4
                &&& is_native_view(frame.pixels@, buffer_argument(args@)->Ok_0)
            },
            Err(e) => update_refusal(*this, args@) == Some(e),
        },
{
    let window = match downcast_this(this) {
        Ok(window) => window,
        Err(e) => {
            return Err(e);
        },
    };
    if args.len() == 0 {
        return Err(ScriptError::MissingArrayBuffer);
    }
    let buf: &'a [u8] = match args[0] {
        ScriptValue::Object(ScriptObject::ArrayBuffer(bytes)) => bytes,
        ScriptValue::Object(_) => {
            return Err(ScriptError::NotAnArrayBuffer);
        },
        _ => {
            return Err(ScriptError::MissingArrayBuffer);
        },
    };
    if args.len() < 3 {
        return Err(ScriptError::InvalidDimensions);
    }
    let (width, height) = match (args[1], args[2]) {
        (ScriptValue::Number(width), ScriptValue::Number(height)) => (
            to_pixel_count(width),
            to_pixel_count(height),
        ),
        _ => {
            return Err(ScriptError::InvalidDimensions);
        },
    };
    if !window.is_open() {
        return Err(ScriptError::WindowClosed);
    }
    match update_window_buffer(buf, width, height) {
        Ok(pixels) => Ok(Frame { pixels, width, height }),
        Err(e) => Err(e),
    }
}

/// A window whose surface has just been created answers `isOpen` with true.
pub proof fn lemma_fresh_window_is_open<'a>(this: ScriptValue<'a>, request: SurfaceRequest)
    requires
        this.is_window(),
        this.window()@ == WindowState::fresh(request),
    ensures
        is_open_reply(this) == Ok::<bool, ScriptError>(true),
{
}

/// A call whose receiver is not a window fails as such, whatever its
/// arguments are, and asks nothing of any surface.
pub proof fn lemma_receiver_must_be_a_window<'a>(
    this: ScriptValue<'a>,
    args: Seq<ScriptValue<'a>>,
)
    requires
        !this.is_window(),
    ensures
        limit_update_rate_reply(this, args) == Err::<Option<u64>, ScriptError>(
            ScriptError::NotAWindow,
        ),
        is_open_reply(this) == Err::<bool, ScriptError>(ScriptError::NotAWindow),
        update_refusal(this, args) == Some(ScriptError::NotAWindow),
{
}

/// `updateWithBuffer` on a window shows nothing where its first argument is
/// not a byte buffer, or where width or height is left out or not a number.
/// The failure names the first argument that is at fault.
pub proof fn lemma_bad_arguments_are_refused<'a>(this: ScriptValue<'a>, args: Seq<ScriptValue<'a>>)
    requires
        this.is_window(),
    ensures
        buffer_argument(args) matches Err(e) ==> update_refusal(this, args) == Some(e),
        buffer_argument(args) is Ok && dimension_arguments(args) is Err ==> update_refusal(
            this,
            args,
        ) == Some(ScriptError::InvalidDimensions),
        (args.len() == 0 || !(args[0] is Object)) ==> buffer_argument(args) == Err::<
            Seq<u8>,
            ScriptError,
        >(ScriptError::MissingArrayBuffer),
        (args.len() > 0 && args[0] is Object && !(args[0]->Object_0 is ArrayBuffer))
            ==> buffer_argument(args) == Err::<Seq<u8>, ScriptError>(
            ScriptError::NotAnArrayBuffer,
        ),
        (args.len() < 3 || !(args[1] is Number) || !(args[2] is Number)) ==> dimension_arguments(
            args,
        ) is Err,
{
}

/// `updateWithBuffer` never shows a frame out of a buffer that is shorter
/// than four bytes for each of its pixels, whatever width and height are.
pub proof fn lemma_short_buffer_is_refused<'a>(this: ScriptValue<'a>, args: Seq<ScriptValue<'a>>)
    requires
        buffer_argument(args) is Ok,
        dimension_arguments(args) is Ok,
        buffer_argument(args)->Ok_0.len() < frame_bytes(
            dimension_arguments(args)->Ok_0.0,
            dimension_arguments(args)->Ok_0.1,
        ),
    ensures
        update_refusal(this, args) is Some,
        this.is_window() && this.window()@.open ==> update_refusal(this, args) == Some(
            ScriptError::BufferTooSmall,
        ),
{
}

/// Setting a refresh limit and then calling `limitUpdateRateMs` with
/// `undefined`, or with nothing, leaves a window as if no limit had ever
/// been set on it.
pub proof fn lemma_lifted_limit_leaves_no_trace(state: WindowState, ms: u64)
    ensures
        update_rate_argument(seq![ScriptValue::Number(ms)]) == Ok::<Option<u64>, ScriptError>(
            Some(ms),
        ),
        update_rate_argument(seq![ScriptValue::Undefined]) == Ok::<Option<u64>, ScriptError>(None),
        update_rate_argument(Seq::<ScriptValue>::empty()) == Ok::<Option<u64>, ScriptError>(None),
        state.with_update_rate_limit(Some(ms)).with_update_rate_limit(None)
            == state.with_update_rate_limit(None),
        state.update_rate_limit is None ==> state.with_update_rate_limit(
            Some(ms),
        ).with_update_rate_limit(None) == state,
{
}

/// Once the surface has reported that it is closed, `isOpen` answers false
/// and `updateWithBuffer` shows nothing: with arguments that are in order it
/// fails because the window is closed.
pub proof fn lemma_closed_window_shows_nothing<'a>(
    this: ScriptValue<'a>,
    args: Seq<ScriptValue<'a>>,
)
    requires
        this.is_window(),
        !this.window()@.open,
    ensures
        is_open_reply(this) == Ok::<bool, ScriptError>(false),
        update_refusal(this, args) is Some,
        buffer_argument(args) is Ok && dimension_arguments(args) is Ok ==> update_refusal(
            this,
            args,
        ) == Some(ScriptError::WindowClosed),
{
}

} // verus!
