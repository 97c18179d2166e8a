//! Builds command-line invocations for the external `dialog` program and
//! interprets its exit codes and captured output as typed results.
//!
//! A dialog box is described by one of the types below, each with the text
//! it displays and its variant-specific fields:
//! - [`Message`]: a simple message box
//! - [`Question`]: a yes/no question
//! - [`Input`]: a text input, optionally pre-filled
//! - [`Password`]: a password input
//! - [`Menu`]: a menu of item-name/item-value pairs
//! - [`Form`], [`MixedForm`], [`PasswordForm`]: forms of labelled fields
//! - [`Gauge`], [`MixedGauge`]: progress bars
//! - [`FileSelection`]: a file chooser
//!
//! Shared presentation settings live in [`backends::Dialog`], whose methods
//! serialize a box description into the flat argument list the external
//! program takes.  The functions in [`backends::dialog`] classify what the
//! program came back with — its exit code and the text captured from its
//! error stream — into a [`Choice`] and the dialog's textual output.
//! Spawning the process itself is left to the caller, who hands the
//! outcome back as an [`InvocationResult`].

use vstd::prelude::*;

mod error;
pub mod form;
pub mod num;
pub mod sys;

pub mod backends;

pub use crate::error::Error;

verus! {

/// What one run of the external program ended in: its exit code, if any, and
/// the bytes captured from its error stream, which the program uses to carry
/// the dialog's textual result.
pub struct InvocationResult {
    /// The exit code of the process, or `None` if it was terminated without
    /// one.
    pub code: Option<i32>,
    /// The bytes captured from the process's error stream.
    pub output: Vec<u8>,
}

/// A user choice in a dialog box.
#[derive(Clone, Copy, Debug, PartialEq, Eq, Structural)]
pub enum Choice {
    /// The ok/yes button.
    Yes,
    /// The no button.
    No,
    /// The cancel button.
    Cancel,
    /// The extra button.
    Extra,
    /// The help button.
    Help,
    /// The escape key.
    Escape,
}

/// A message box.
///
/// This dialog box displays a text and has a single OK button.  It does not
/// produce any output.
pub struct Message {
    /// The text displayed in the box.
    pub text: String,
}

impl Message {
    /// Creates a new message box with the given text.
    pub fn new(text: &str) -> (r: Message)
        ensures
            r.text@ == text@,
    {
        Message { text: text.to_owned() }
    }
}

/// A dialog box with a text input field.
///
/// This dialog box displays a text and an input field, optionally
/// pre-filled with a default value.
pub struct Input {
    /// The text displayed in the box.
    pub text: String,
    /// The value the input field starts out with, if any.
    pub default: Option<String>,
}

impl Input {
    /// Creates a new input dialog box with the given text and no default
    /// value.
    pub fn new(text: &str) -> (r: Input)
        ensures
            r.text@ == text@,
            r.default is None,
    {
        Input { text: text.to_owned(), default: None }
    }

    /// Sets the default value of this input box.
    pub fn default(&mut self, default: &str)
        ensures
            final(self).text == old(self).text,
            final(self).default matches Some(d) && d@ == default@,
    {
        self.default = Some(default.to_owned());
    }
}

/// A dialog box with a password input field.
pub struct Password {
    /// The text displayed in the box.
    pub text: String,
}

impl Password {
    /// Creates a new password dialog box with the given text.
    pub fn new(text: &str) -> (r: Password)
        ensures
            r.text@ == text@,
    {
        Password { text: text.to_owned() }
    }
}

/// A question dialog box with a yes and a no button.
pub struct Question {
    /// The text displayed in the box.
    pub text: String,
}

impl Question {
    /// Creates a new question dialog with the given text.
    pub fn new(text: &str) -> (r: Question)
        ensures
            r.text@ == text@,
    {
        Question { text: text.to_owned() }
    }
}

/// A gauge box: a progress bar at a fixed percentage.
pub struct Gauge {
    /// The text displayed in the box.
    pub text: String,
    /// The percentage shown; not clamped to 100.
    pub percent: u8,
}

impl Gauge {
    /// Creates a new gauge box with the given text and percentage.
    pub fn new(text: &str, percent: u8) -> (r: Gauge)
        ensures
            r.text@ == text@,
            r.percent == percent,
    {
        Gauge { text: text.to_owned(), percent }
    }
}

/// A mixed gauge box: a progress bar at a fixed percentage.
pub struct MixedGauge {
    /// The text displayed in the box.
    pub text: String,
    /// The percentage shown; not clamped to 100.
    pub percent: u8,
}

impl MixedGauge {
    /// Creates a new mixed gauge box with the given text and percentage.
    pub fn new(text: &str, percent: u8) -> (r: MixedGauge)
        ensures
            r.text@ == text@,
            r.percent == percent,
    {
        MixedGauge { text: text.to_owned(), percent }
    }
}

/// The flattening of name/value pairs into one list of alternating tokens,
/// order preserved.
pub open spec fn flat_pairs(l: Seq<[String; 2]>) -> Seq<Seq<char>> {
    Seq::new(
        2 * l.len(),
        |j: int| if j % 2 == 0 { l[j / 2]@[0]@ } else { l[j / 2]@[1]@ },
    )
}

/// A menu box.
///
/// This dialog box displays a list of items to choose one of, each an
/// item-name/item-value pair.  Duplicate item names are permitted.
pub struct Menu {
    /// The text displayed in the box.
    pub text: String,
    /// The number of menu rows displayed.
    pub menu_height: u32,
    /// The item pairs, flattened into alternating name and value tokens.
    pub list: Vec<String>,
}

impl Menu {
    /// Creates a new menu dialog with the given text, row count, and list of
    /// item-name/item-value pairs.
    pub fn new(text: &str, menu_height: u32, list: Vec<[String; 2]>) -> (r: Menu)
        ensures
            r.text@ == text@,
            r.menu_height == menu_height,
            r.list.deep_view() == flat_pairs(list@),
    {
        broadcast use vstd::array::group_array_axioms;

        let mut flat: Vec<String> = Vec::new();
        let mut i: usize = 0;
        while i < list.len()
            invariant
                i <= list@.len(),
                flat@.len() == 2 * i,
                flat.deep_view() == flat_pairs(list@).subrange(0, 2 * (i as int)),
            decreases list@.len() - i,
        {
            let name = list[i][0].clone();
            let value = list[i][1].clone();
            proof {
                assert(name == list@[i as int]@[0]);
                assert(value == list@[i as int]@[1]);
            }
            flat.push(name);
            flat.push(value);
            i = i + 1;
            proof {
                assert(flat.deep_view() =~~= flat_pairs(list@).subrange(0, 2 * (i as int)));
            }
        }
        proof {
            assert(flat.deep_view() =~~= flat_pairs(list@));
        }
        Menu { text: text.to_owned(), menu_height, list: flat }
    }
}

/// A form box.
///
/// This dialog box displays a form of labels and text fields to be filled
/// out.  Each field entry flattens into one string of eight space-joined
/// tokens: label, label row, label column, initial value, value row, value
/// column, field width, input limit.
pub struct Form {
    /// The text displayed in the box.
    pub text: String,
    /// The number of form rows displayed.
    pub form_height: u32,
    /// The field entries, each flattened into its eight-token string.
    pub list: Vec<String>,
}

impl Form {
    /// Creates a new form dialog with the given text, row count, and list
    /// of field entries.
    pub fn new(text: &str, form_height: u32, list: Vec<(String, u8, u8, String, u8, u8, u8, u8)>)
        -> (r: Form)
        ensures
            r.text@ == text@,
            r.form_height == form_height,
            r.list.deep_view() == form::entries_text(list@),
    {
        Form { text: text.to_owned(), form_height, list: form::flatten_entries(&list) }
    }
}

/// A mixed form box.
///
/// This dialog box displays a form of labels and text fields of mixed
/// kinds to be filled out.  Field entries flatten as for [`Form`].
pub struct MixedForm {
    /// The text displayed in the box.
    pub text: String,
    /// The number of form rows displayed.
    pub form_height: u32,
    /// The field entries, each flattened into its eight-token string.
    pub list: Vec<String>,
}

impl MixedForm {
    /// Creates a new mixed form dialog with the given text, row count, and
    /// list of field entries.
    pub fn new(text: &str, form_height: u32, list: Vec<(String, u8, u8, String, u8, u8, u8, u8)>)
        -> (r: MixedForm)
        ensures
            r.text@ == text@,
            r.form_height == form_height,
            r.list.deep_view() == form::entries_text(list@),
    {
        MixedForm { text: text.to_owned(), form_height, list: form::flatten_entries(&list) }
    }
}

/// A password form box.
///
/// This dialog box displays a form of password input fields.  Field
/// entries flatten as for [`Form`].
pub struct PasswordForm {
    /// The text displayed in the box.
    pub text: String,
    /// The number of form rows displayed.
    pub form_height: u32,
    /// The field entries, each flattened into its eight-token string.
    pub list: Vec<String>,
}

impl PasswordForm {
    /// Creates a new password form dialog with the given text, row count,
    /// and list of field entries.
    pub fn new(text: &str, form_height: u32, list: Vec<(String, u8, u8, String, u8, u8, u8, u8)>)
        -> (r: PasswordForm)
        ensures
            r.text@ == text@,
            r.form_height == form_height,
            r.list.deep_view() == form::entries_text(list@),
    {
        PasswordForm { text: text.to_owned(), form_height, list: form::flatten_entries(&list) }
    }
}

/// The operation mode of a file selection dialog.
#[derive(Clone, Copy, Debug, PartialEq, Eq, Structural)]
pub enum FileSelectionMode {
    /// An open-file dialog: the user can only select an existing file.
    Open,
    /// A save-file dialog: the user may select a file that does not exist.
    Save,
}

/// A file chooser dialog box.
///
/// This dialog box opens a file chooser in the given path; where none is
/// given, it starts in the user's home directory, if the platform reports
/// one.  The path must name an existing directory when the dialog is
/// invoked, and is serialized with an enforced trailing separator.
pub struct FileSelection {
    /// The text displayed in the box.
    pub text: String,
    /// The directory the chooser starts in, if one is known.
    pub path: Option<String>,
    /// Whether the dialog opens an existing file or saves to a new one.
    pub mode: FileSelectionMode,
}

impl FileSelection {
    /// Creates a new file chooser with the given text, starting in the
    /// user's home directory.
    pub fn new(text: &str) -> (r: FileSelection)
        ensures
            r.text@ == text@,
            r.mode == FileSelectionMode::Open,
    {
        FileSelection {
            text: text.to_owned(),
            path: sys::home_dir_string(),
            mode: FileSelectionMode::Open,
        }
    }

    /// Sets the path of this file chooser dialog box.
    pub fn path(&mut self, path: &str)
        ensures
            final(self).text == old(self).text,
            final(self).mode == old(self).mode,
            final(self).path matches Some(p) && p@ == path@,
    {
        self.path = Some(path.to_owned());
    }

    /// The trailing-separator-normalized form of a path, where the check
    /// for an existing directory came back positive; nothing otherwise.
    pub fn normalized_path(path: &String, is_dir: bool) -> (r: Option<String>)
        ensures
            is_dir ==> (r matches Some(s) && s@ == path@ + "/"@),
            !is_dir ==> r is None,
    {
        if is_dir {
            Some(path.clone().concat("/"))
        } else {
            None
        }
    }

    /// The validated directory of this file chooser as a string with an
    /// enforced trailing separator: its path, where that names an existing
    /// directory at the time of the call; nothing otherwise.
    pub fn path_to_string(&self) -> (r: Option<String>)
        ensures
            self.path is None ==> r is None,
            r matches Some(s) ==> (self.path matches Some(p) && s@ == p@ + "/"@),
    {
        match &self.path {
            Some(path) => Self::normalized_path(path, sys::path_is_dir(path.as_str())),
            None => None,
        }
    }

    /// Sets the operation mode of the file chooser.
    pub fn mode(&mut self, mode: FileSelectionMode)
        ensures
            final(self).text == old(self).text,
            final(self).path == old(self).path,
            final(self).mode == mode,
    {
        self.mode = mode;
    }
}

} // verus!
