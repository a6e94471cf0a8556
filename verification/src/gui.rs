//! The plugin's GUI as its owner sees it: an HTML document and a callback,
//! a window that is open or not, and a browser control that is embedded or
//! not.

use std::rc::Rc;
use vstd::prelude::*;
use crate::browser::eval_parameters;
use crate::com_pointer::InterfacePointer;
use crate::dispatch::{DispatchParameters, VT_BSTR};
use crate::error::RuntimeError;
use crate::geometry::Rect;
use crate::utf16::encode_utf16;
use crate::window::{default_size, half};

verus! {

/// The state of a plugin's GUI.
pub struct PluginGui<F> {
    html_document: String,
    js_callback: Rc<F>,
    window_size: Option<(i32, i32)>,
    window: Option<usize>,
    web_browser: Option<InterfacePointer>,
}

/// The description of the failure to run a script without a browser.
pub open spec fn closed_failure() -> Seq<char> {
    "The plugin window is closed"@
}

impl<F: Fn(String) -> String> PluginGui<F> {
    /// The HTML document that the GUI shows.
    pub closed spec fn document(&self) -> Seq<char> {
        self.html_document@
    }

    /// The callback that the page's calls go to.
    pub closed spec fn callback(&self) -> Rc<F> {
        self.js_callback
    }

    /// The size that the owner asked for, if any.
    pub closed spec fn wanted_size(&self) -> Option<(i32, i32)> {
        self.window_size
    }

    /// The window, while the GUI is open.
    pub closed spec fn window(&self) -> Option<usize> {
        self.window
    }

    /// The browser control, while one is embedded.
    pub closed spec fn browser(&self) -> Option<InterfacePointer> {
        self.web_browser
    }

    /// Whether everything that the GUI was made with is as in `other`.
    pub open spec fn same_making(&self, other: &PluginGui<F>) -> bool {
        &&& self.document() == other.document()
        &&& self.callback() == other.callback()
        &&& self.wanted_size() == other.wanted_size()
    }

    /// The HTML document that the GUI shows.
    pub fn html_document(&self) -> (document: &str)
        ensures
            document@ == self.document(),
    {
        self.html_document.as_str()
    }

    /// The callback, shared with the caller.
    pub fn js_callback(&self) -> (callback: Rc<F>)
        ensures
            callback == self.callback(),
    {
        self.js_callback.clone()
    }

    /// The size of the window to open: the size that the owner asked for,
    /// or half the screen where the owner asked for none.
    pub fn window_size(&self, screen_width: i32, screen_height: i32) -> (size: (i32, i32))
        ensures
            self.wanted_size() is Some ==> size == self.wanted_size().unwrap(),
            self.wanted_size() is None ==> size.0 == half(screen_width) && size.1 == half(
                screen_height,
            ),
    {
        match self.window_size {
            Some(size) => size,
            None => default_size(screen_width, screen_height),
        }
    }

    /// The size of the GUI: that of the window's rectangle while the GUI is
    /// open, nothing while it is closed.
    pub fn size(&self, window_rect: &Rect) -> (size: (i32, i32))
        requires
            self.window() is Some ==> window_rect.measurable(),
        ensures
            self.window() is Some ==> size.0 == window_rect.right - window_rect.left && size.1
                == window_rect.bottom - window_rect.top,
            self.window() is None ==> size == (0i32, 0i32),
    {
        match self.window {
            Some(_) => window_rect.size(),
            None => (0, 0),
        }
    }

    /// The position of the GUI in its parent: the origin.
    pub fn position(&self) -> (position: (i32, i32))
        ensures
            position == (0i32, 0i32),
    {
        (0, 0)
    }

    /// Whether the GUI is open: whether it has a window.
    pub fn is_open(&self) -> (open: bool)
        ensures
            open == self.window() is Some,
    {
        self.window.is_some()
    }

    /// The window of the open GUI.
    pub fn window_handle(&self) -> (window: Option<usize>)
        ensures
            window == self.window(),
    {
        self.window
    }

    /// Takes note of an attempt to open the GUI in `window`. The window
    /// stays whether or not a browser was embedded in it; the browser is
    /// kept where the setup succeeded, and the failure is handed on where it
    /// did not.
    pub fn open(&mut self, window: usize, browser: Result<InterfacePointer, RuntimeError>) -> (opened:
        Result<(), RuntimeError>)
        ensures
            final(self).same_making(old(self)),
            final(self).window() == Some(window),
            match browser {
                Ok(control) => opened is Ok && final(self).browser() == Some(control),
                Err(error) => opened is Err && opened.unwrap_err()@ == error@ && final(self).browser() is None,
            },
    {
        self.window = Some(window);
        match browser {
            Ok(control) => {
                self.web_browser = Some(control);
                Ok(())
            },
            Err(error) => {
                self.web_browser = None;
                Err(error)
            },
        }
    }

    /// Closes the GUI: it lets go of the browser and of the window, which
    /// are the caller's to release.
    pub fn close(&mut self) -> (released: (Option<InterfacePointer>, Option<usize>))
        ensures
            final(self).same_making(old(self)),
            final(self).window() is None,
            final(self).browser() is None,
            released == (old(self).browser(), old(self).window()),
    {
        let released = (self.web_browser, self.window);
        self.web_browser = None;
        self.window = None;
        released
    }

    /// Prepares the run of `javascript_code` in the page: the browser to
    /// run it in, and the arguments of the call of `eval`. Without a browser
    /// it fails.
    pub fn execute(&self, javascript_code: &str) -> (call: Result<
        (InterfacePointer, DispatchParameters),
        RuntimeError,
    >)
        ensures
            match self.browser() {
                Some(control) => {
                    &&& call is Ok
                    &&& call.unwrap().0 == control
                    &&& call.unwrap().1.named_arguments == 0
                    &&& call.unwrap().1.arguments@.len() == 1
                    &&& call.unwrap().1.arguments@[0].vt == VT_BSTR
                    &&& call.unwrap().1.arguments@[0].text@ == encode_utf16(javascript_code@)
                },
                None => call is Err && call.unwrap_err()@ == closed_failure(),
            },
    {
        match self.web_browser {
            Some(control) => Ok((control, eval_parameters(javascript_code))),
            None => Err(RuntimeError::new("The plugin window is closed")),
        }
    }
}

/// A GUI that shows `html_document` and hands the page's calls to
/// `js_callback`. It starts closed.
pub fn new_plugin_gui<F: Fn(String) -> String>(
    html_document: String,
    js_callback: F,
    window_size: Option<(i32, i32)>,
) -> (gui: PluginGui<F>)
    ensures
        gui.document() == html_document@,
        *gui.callback() == js_callback,
        gui.wanted_size() == window_size,
        gui.window() is None,
        gui.browser() is None,
{
    PluginGui {
        html_document,
        js_callback: Rc::new(js_callback),
        window_size,
        window: None,
        web_browser: None,
    }
}

} // verus!
