//! The window of a session: its dimensions, its title and its close flag.

use vstd::prelude::*;

verus! {

/// Why a session ended in failure.
#[derive(Clone, Copy, Debug, PartialEq, Eq, Structural, Hash)]
pub enum SessionError {
    /// The window or its rendering context could not be created. Nothing was
    /// acquired, so nothing is left to release.
    Initialization,
    /// The renderer failed while drawing a frame. The loop ends at once.
    Render,
}

impl SessionError {
    /// The diagnostic shown when the session ends with this error.
    pub fn message(&self) -> (text: &'static str)
        ensures
            *self == SessionError::Initialization ==> text@ == "Failed to create GLFW window."@,
            *self == SessionError::Render ==> text@ == "Failed to render a frame."@,
    {
        match self {
            SessionError::Initialization => "Failed to create GLFW window.",
            SessionError::Render => "Failed to render a frame.",
        }
    }
}

/// What a window is, as a value.
pub struct WindowView {
    pub width: nat,
    pub height: nat,
    pub title: Seq<char>,
    pub close_flag: bool,
}

/// One on-screen surface with its rendering context.
///
/// Both dimensions are positive. The close flag starts out false and is only
/// ever set: nothing resets it while the window lives.
pub struct Window {
    width: u32,
    height: u32,
    title: String,
    close_flag: bool,
}

impl View for Window {
    type V = WindowView;

    closed spec fn view(&self) -> WindowView {
        WindowView {
            width: self.width as nat,
            height: self.height as nat,
            title: self.title@,
            close_flag: self.close_flag,
        }
    }
}

impl Window {
    #[verifier::type_invariant]
    spec fn positive_dimensions(self) -> bool {
        self.width > 0 && self.height > 0
    }

    /// Describes a window of the given dimensions and title.
    ///
    /// `context_ready` is what the windowing layer reported when it was asked
    /// for the native window and its rendering context, already made current
    /// on the calling thread. The window exists exactly when both dimensions
    /// are positive and the layer succeeded; otherwise initialization fails.
    pub fn initialize(width: u32, height: u32, title: &str, context_ready: bool) -> (result: Result<
        Window,
        SessionError,
    >)
        ensures
            result is Ok <==> width > 0 && height > 0 && context_ready,
            result matches Ok(window) ==> window@ == (WindowView {
                width: width as nat,
                height: height as nat,
                title: title@,
                close_flag: false,
            }),
            result matches Err(error) ==> error == SessionError::Initialization,
    {
        if width == 0 || height == 0 || !context_ready {
            return Err(SessionError::Initialization);
        }
        Ok(Window { width, height, title: title.to_owned(), close_flag: false })
    }

    /// The width, which is positive.
    pub fn width(&self) -> (width: u32)
        ensures
            width == self@.width,
            width > 0,
    {
        proof {
            use_type_invariant(self);
        }
        self.width
    }

    /// The height, which is positive.
    pub fn height(&self) -> (height: u32)
        ensures
            height == self@.height,
            height > 0,
    {
        proof {
            use_type_invariant(self);
        }
        self.height
    }

    /// The title.
    pub fn title(&self) -> (title: &str)
        ensures
            title@ == self@.title,
    {
        self.title.as_str()
    }

    /// Whether the window has been asked to close.
    pub fn should_close(&self) -> (flag: bool)
        ensures
            flag == self@.close_flag,
    {
        self.close_flag
    }

    /// Sets the close flag. Setting it again changes nothing.
    pub fn request_close(&mut self)
        ensures
            final(self)@ == (WindowView { close_flag: true, ..old(self)@ }),
    {
        proof {
            use_type_invariant(&*self);
        }
        self.close_flag = true;
    }
}

} // verus!
