//! The `dialog` backend: serializes a dialog-box description plus shared
//! configuration into the flat argument list the external `dialog` program
//! takes, and classifies the exit code and captured output it comes back
//! with.

use vstd::prelude::*;

use crate::num::{dec_digits, u32_to_string, u8_to_string};
use crate::sys::{decode_utf8, utf8_of};
use crate::{
    Choice, Error, FileSelection, Form, Gauge, Input, InvocationResult, Menu, Message, MixedForm,
    MixedGauge, Password, PasswordForm, Question,
};

verus! {

/// The shared presentation settings applied to every invocation of the
/// external `dialog` program.
#[derive(Debug)]
pub struct Dialog {
    /// The text displayed on the backdrop, at the top of the screen, if set.
    pub backtitle: Option<String>,
    /// The title displayed in the box, at the top, if set.
    pub title: Option<String>,
    /// The label of the OK button, if overridden.
    pub label_okbutton: Option<String>,
    /// The label of the extra button; setting it also makes the button
    /// appear.
    pub label_extrabutton: Option<String>,
    /// The label of the cancel button, if overridden.
    pub label_cancelbutton: Option<String>,
    /// The label of the help button; setting it also makes the button
    /// appear.
    pub label_helpbutton: Option<String>,
    /// Whether password input echoes one asterisk per character instead of
    /// nothing at all.
    pub insecure: bool,
    /// Whether the cancel button is shown.
    pub cancelbutton: bool,
    /// The width of the box in characters, as a decimal token; "0" means
    /// auto-size.
    pub width: String,
    /// The height of the box in characters, as a decimal token; "0" means
    /// auto-size.
    pub height: String,
}

/// The flag-and-value tokens of one optional setting: nothing where it is
/// unset.
pub open spec fn opt_pair(flag: Seq<char>, o: Option<String>) -> Seq<Seq<char>> {
    match o {
        Some(s) => seq![flag, s@],
        None => seq![],
    }
}

/// The tokens of an optional button that takes both an enabling flag and a
/// label flag: nothing where it is unset.
pub open spec fn opt_button(on: Seq<char>, flag: Seq<char>, o: Option<String>) -> Seq<Seq<char>> {
    match o {
        Some(s) => seq![on, flag, s@],
        None => seq![],
    }
}

/// The shared option tokens of a configuration, in the fixed order the
/// serializer emits them: backtitle, title, OK label, extra button, cancel
/// label, help button, cancel suppression, insecure echo.
pub open spec fn common_tokens(d: Dialog) -> Seq<Seq<char>> {
    opt_pair("--backtitle"@, d.backtitle) + opt_pair("--title"@, d.title) + opt_pair(
        "--ok-label"@,
        d.label_okbutton,
    ) + opt_button("--extra-button"@, "--extra-label"@, d.label_extrabutton) + opt_pair(
        "--cancel-label"@,
        d.label_cancelbutton,
    ) + opt_button("--help-button"@, "--help-label"@, d.label_helpbutton) + (
    if !d.cancelbutton {
        seq!["--no-cancel"@]
    } else {
        Seq::<Seq<char>>::empty()
    }) + (
    if d.insecure {
        seq!["--insecure"@]
    } else {
        Seq::<Seq<char>>::empty()
    })
}

/// The token of an optional box-type argument: nothing where there is
/// none.
pub open spec fn opt_text(o: Option<Seq<char>>) -> Seq<Seq<char>> {
    match o {
        Some(s) => seq![s],
        None => seq![],
    }
}

/// The view of an optional string.
pub open spec fn opt_view(o: Option<String>) -> Option<Seq<char>> {
    match o {
        Some(s) => Some(s@),
        None => None,
    }
}

/// The complete argument list of one invocation: the shared options, the
/// box-type flag, the box-type argument (usually the display text), the
/// height and width tokens, and the type-specific trailing tokens.
pub open spec fn full_tokens(
    d: Dialog,
    boxtype: Seq<char>,
    arg: Option<Seq<char>>,
    extra: Seq<Seq<char>>,
) -> Seq<Seq<char>> {
    common_tokens(d) + seq![boxtype] + opt_text(arg) + seq![d.height@, d.width@] + extra
}

impl Dialog {
    /// Whether a configuration has every optional setting unset and every
    /// field at its starting value: auto-sized, secure echo, cancel button
    /// shown.
    pub open spec fn is_default(self) -> bool {
        &&& self.backtitle is None
        &&& self.title is None
        &&& self.label_okbutton is None
        &&& self.label_extrabutton is None
        &&& self.label_cancelbutton is None
        &&& self.label_helpbutton is None
        &&& !self.insecure
        &&& self.cancelbutton
        &&& self.height@ == dec_digits(0)
        &&& self.width@ == dec_digits(0)
    }

    /// Creates a new `Dialog` instance without configuration.
    pub fn new() -> (r: Dialog)
        ensures
            r.is_default(),
    {
        Dialog {
            backtitle: None,
            title: None,
            label_okbutton: None,
            label_extrabutton: None,
            label_cancelbutton: None,
            label_helpbutton: None,
            insecure: false,
            cancelbutton: true,
            height: u32_to_string(0),
            width: u32_to_string(0),
        }
    }

    /// Sets the backtitle for the dialog box.
    ///
    /// The backtitle is displayed on the backdrop, at the top of the screen.
    pub fn set_backtitle(self, backtitle: String) -> (r: Dialog)
        ensures
            r == (Dialog { backtitle: Some(backtitle), ..self }),
    {
        Dialog { backtitle: Some(backtitle), ..self }
    }

    /// Sets the title for the dialog box.
    ///
    /// The title is displayed in the box, at the top.
    pub fn set_title(self, title: String) -> (r: Dialog)
        ensures
            r == (Dialog { title: Some(title), ..self }),
    {
        Dialog { title: Some(title), ..self }
    }

    /// Sets the label of the OK button for the dialog box.
    ///
    /// The OK button is displayed before the cancel button.
    pub fn set_oklabel(self, label: String) -> (r: Dialog)
        ensures
            r == (Dialog { label_okbutton: Some(label), ..self }),
    {
        Dialog { label_okbutton: Some(label), ..self }
    }

    /// Sets the label of the extra button for the dialog box, and makes the
    /// button appear.
    ///
    /// The extra button is displayed between the OK and cancel buttons.
    pub fn set_extralabel(self, label: String) -> (r: Dialog)
        ensures
            r == (Dialog { label_extrabutton: Some(label), ..self }),
    {
        Dialog { label_extrabutton: Some(label), ..self }
    }

    /// Sets the label of the cancel button for the dialog box.
    ///
    /// The cancel button is displayed after the OK button.
    pub fn set_cancellabel(self, label: String) -> (r: Dialog)
        ensures
            r == (Dialog { label_cancelbutton: Some(label), ..self }),
    {
        Dialog { label_cancelbutton: Some(label), ..self }
    }

    /// Sets the label of the help button for the dialog box, and makes the
    /// button appear.
    ///
    /// The help button is displayed after the OK and cancel buttons.
    pub fn set_helplabel(self, label: String) -> (r: Dialog)
        ensures
            r == (Dialog { label_helpbutton: Some(label), ..self }),
    {
        Dialog { label_helpbutton: Some(label), ..self }
    }

    /// Suppresses the cancel button.
    ///
    /// Escape can still be used to cancel or quit.
    pub fn no_cancelbutton(self) -> (r: Dialog)
        ensures
            r == (Dialog { cancelbutton: false, ..self }),
    {
        Dialog { cancelbutton: false, ..self }
    }

    /// Sets whether password input is echoed insecurely.
    ///
    /// At the insecure level, input is echoed as one asterisk per character;
    /// at the secure level, it is not echoed at all.
    pub fn set_insecure(self, insecure: bool) -> (r: Dialog)
        ensures
            r == (Dialog { insecure, ..self }),
    {
        Dialog { insecure, ..self }
    }

    /// Sets the height of the dialog box, in characters.
    ///
    /// The external program may draw the box higher where the content would
    /// not fit otherwise.  The default height is zero, meaning auto-size.
    pub fn set_height(self, height: u32) -> (r: Dialog)
        ensures
            r.height@ == dec_digits(height as nat),
            r == (Dialog { height: r.height, ..self }),
    {
        Dialog { height: u32_to_string(height), ..self }
    }

    /// Sets the width of the dialog box, in characters.
    ///
    /// The external program may draw the box wider where the content would
    /// not fit otherwise.  The default width is zero, meaning auto-size.
    pub fn set_width(self, width: u32) -> (r: Dialog)
        ensures
            r.width@ == dec_digits(width as nat),
            r == (Dialog { width: r.width, ..self }),
    {
        Dialog { width: u32_to_string(width), ..self }
    }

    /// Serializes the shared options into their flag tokens, in the fixed
    /// order.
    #[verifier::rlimit(50)]
    fn common_args(&self) -> (r: Vec<String>)
        ensures
            r.deep_view() == common_tokens(*self),
    {
        let mut out: Vec<String> = Vec::new();

        if let Some(backtitle) = &self.backtitle {
            out.push("--backtitle".to_owned());
            out.push(backtitle.clone());
        }
        proof {
            assert(out.deep_view() =~~= opt_pair("--backtitle"@, self.backtitle));
        }
        if let Some(title) = &self.title {
            out.push("--title".to_owned());
            out.push(title.clone());
        }
        proof {
            assert(out.deep_view() =~~= opt_pair("--backtitle"@, self.backtitle) + opt_pair(
                "--title"@,
                self.title,
            ));
        }
        if let Some(label) = &self.label_okbutton {
            out.push("--ok-label".to_owned());
            out.push(label.clone());
        }
        proof {
            assert(out.deep_view() =~~= opt_pair("--backtitle"@, self.backtitle) + opt_pair(
                "--title"@,
                self.title,
            ) + opt_pair("--ok-label"@, self.label_okbutton));
        }
        if let Some(label) = &self.label_extrabutton {
            out.push("--extra-button".to_owned());
            out.push("--extra-label".to_owned());
            out.push(label.clone());
        }
        proof {
            assert(out.deep_view() =~~= opt_pair("--backtitle"@, self.backtitle) + opt_pair(
                "--title"@,
                self.title,
            ) + opt_pair("--ok-label"@, self.label_okbutton) + opt_button(
                "--extra-button"@,
                "--extra-label"@,
                self.label_extrabutton,
            ));
        }
        if let Some(label) = &self.label_cancelbutton {
            out.push("--cancel-label".to_owned());
            out.push(label.clone());
        }
        proof {
            assert(out.deep_view() =~~= opt_pair("--backtitle"@, self.backtitle) + opt_pair(
                "--title"@,
                self.title,
            ) + opt_pair("--ok-label"@, self.label_okbutton) + opt_button(
                "--extra-button"@,
                "--extra-label"@,
                self.label_extrabutton,
            ) + opt_pair("--cancel-label"@, self.label_cancelbutton));
        }
        if let Some(label) = &self.label_helpbutton {
            out.push("--help-button".to_owned());
            out.push("--help-label".to_owned());
            out.push(label.clone());
        }
        proof {
            assert(out.deep_view() =~~= opt_pair("--backtitle"@, self.backtitle) + opt_pair(
                "--title"@,
                self.title,
            ) + opt_pair("--ok-label"@, self.label_okbutton) + opt_button(
                "--extra-button"@,
                "--extra-label"@,
                self.label_extrabutton,
            ) + opt_pair("--cancel-label"@, self.label_cancelbutton) + opt_button(
                "--help-button"@,
                "--help-label"@,
                self.label_helpbutton,
            ));
        }
        if !self.cancelbutton {
            out.push("--no-cancel".to_owned());
        }
        if self.insecure {
            out.push("--insecure".to_owned());
        }
        proof {
            assert(out.deep_view() =~~= common_tokens(*self));
        }
        out
    }

    /// Serializes a whole invocation: the shared options, then the box-type
    /// flag, its argument, the height and width, and the type-specific
    /// trailing tokens.
    fn build_args(&self, boxtype: &str, boxtype_arg: &Option<String>, args: Vec<String>) -> (r:
        Vec<String>)
        ensures
            r.deep_view() == full_tokens(*self, boxtype@, opt_view(*boxtype_arg), args.deep_view()),
    {
        let mut out = self.common_args();
        out.push(boxtype.to_owned());
        if let Some(arg) = boxtype_arg {
            out.push(arg.clone());
        }
        out.push(self.height.clone());
        out.push(self.width.clone());
        let mut rest = args;
        out.append(&mut rest);
        proof {
            assert(out.deep_view() =~~= full_tokens(
                *self,
                boxtype@,
                opt_view(*boxtype_arg),
                args.deep_view(),
            ));
        }
        out
    }

    /// The argument list of a message box invocation.
    pub fn message_args(&self, message: &Message) -> (r: Vec<String>)
        ensures
            r.deep_view() == full_tokens(
                *self,
                "--msgbox"@,
                Some(message.text@),
                Seq::<Seq<char>>::empty(),
            ),
    {
        let r = self.build_args("--msgbox", &Some(message.text.clone()), Vec::new());
        proof {
            assert(r.deep_view() =~~= full_tokens(
                *self,
                "--msgbox"@,
                Some(message.text@),
                Seq::<Seq<char>>::empty(),
            ));
        }
        r
    }

    /// The argument list of a gauge invocation: the percentage is the one
    /// trailing token.
    pub fn gauge_args(&self, gauge: &Gauge) -> (r: Vec<String>)
        ensures
            r.deep_view() == full_tokens(
                *self,
                "--mixedgauge"@,
                Some(gauge.text@),
                seq![dec_digits(gauge.percent as nat)],
            ),
    {
        let mut extra: Vec<String> = Vec::new();
        extra.push(u8_to_string(gauge.percent));
        let r = self.build_args("--mixedgauge", &Some(gauge.text.clone()), extra);
        proof {
            assert(r.deep_view() =~~= full_tokens(
                *self,
                "--mixedgauge"@,
                Some(gauge.text@),
                seq![dec_digits(gauge.percent as nat)],
            ));
        }
        r
    }

    /// The argument list of a mixed gauge invocation: the percentage is the
    /// one trailing token.
    pub fn mixed_gauge_args(&self, gauge: &MixedGauge) -> (r: Vec<String>)
        ensures
            r.deep_view() == full_tokens(
                *self,
                "--mixedgauge"@,
                Some(gauge.text@),
                seq![dec_digits(gauge.percent as nat)],
            ),
    {
        let mut extra: Vec<String> = Vec::new();
        extra.push(u8_to_string(gauge.percent));
        let r = self.build_args("--mixedgauge", &Some(gauge.text.clone()), extra);
        proof {
            assert(r.deep_view() =~~= full_tokens(
                *self,
                "--mixedgauge"@,
                Some(gauge.text@),
                seq![dec_digits(gauge.percent as nat)],
            ));
        }
        r
    }

    /// The argument list of an input box invocation: the default value, if
    /// set, is the one trailing token.
    pub fn input_args(&self, input: &Input) -> (r: Vec<String>)
        ensures
            r.deep_view() == full_tokens(*self, "--inputbox"@, Some(input.text@), opt_text(opt_view(input.default))),
    {
        let mut extra: Vec<String> = Vec::new();
        if let Some(default) = &input.default {
            extra.push(default.clone());
        }
        let r = self.build_args("--inputbox", &Some(input.text.clone()), extra);
        proof {
            assert(r.deep_view() =~~= full_tokens(
                *self,
                "--inputbox"@,
                Some(input.text@),
                opt_text(opt_view(input.default)),
            ));
        }
        r
    }

    /// The argument list of a password box invocation.
    pub fn password_args(&self, password: &Password) -> (r: Vec<String>)
        ensures
            r.deep_view() == full_tokens(
                *self,
                "--passwordbox"@,
                Some(password.text@),
                Seq::<Seq<char>>::empty(),
            ),
    {
        let r = self.build_args("--passwordbox", &Some(password.text.clone()), Vec::new());
        proof {
            assert(r.deep_view() =~~= full_tokens(
                *self,
                "--passwordbox"@,
                Some(password.text@),
                Seq::<Seq<char>>::empty(),
            ));
        }
        r
    }

    /// The argument list of a question box invocation.
    pub fn question_args(&self, question: &Question) -> (r: Vec<String>)
        ensures
            r.deep_view() == full_tokens(
                *self,
                "--yesno"@,
                Some(question.text@),
                Seq::<Seq<char>>::empty(),
            ),
    {
        let r = self.build_args("--yesno", &Some(question.text.clone()), Vec::new());
        proof {
            assert(r.deep_view() =~~= full_tokens(
                *self,
                "--yesno"@,
                Some(question.text@),
                Seq::<Seq<char>>::empty(),
            ));
        }
        r
    }

    /// The argument list of a menu invocation: the row-count token, then the
    /// flattened item pairs.
    pub fn menu_args(&self, menu: &Menu) -> (r: Vec<String>)
        ensures
            r.deep_view() == full_tokens(
                *self,
                "--menu"@,
                Some(menu.text@),
                seq![dec_digits(menu.menu_height as nat)] + menu.list.deep_view(),
            ),
    {
        let mut extra: Vec<String> = Vec::new();
        extra.push(u32_to_string(menu.menu_height));
        let mut items = menu.list.clone();
        extra.append(&mut items);
        let r = self.build_args("--menu", &Some(menu.text.clone()), extra);
        proof {
            assert(r.deep_view() =~~= full_tokens(
                *self,
                "--menu"@,
                Some(menu.text@),
                seq![dec_digits(menu.menu_height as nat)] + menu.list.deep_view(),
            ));
        }
        r
    }

    /// The argument list of a form invocation: the row-count token, then
    /// the flattened field entries.
    pub fn form_args(&self, form: &Form) -> (r: Vec<String>)
        ensures
            r.deep_view() == full_tokens(
                *self,
                "--form"@,
                Some(form.text@),
                seq![dec_digits(form.form_height as nat)] + form.list.deep_view(),
            ),
    {
        let mut extra: Vec<String> = Vec::new();
        extra.push(u32_to_string(form.form_height));
        let mut items = form.list.clone();
        extra.append(&mut items);
        let r = self.build_args("--form", &Some(form.text.clone()), extra);
        proof {
            assert(r.deep_view() =~~= full_tokens(
                *self,
                "--form"@,
                Some(form.text@),
                seq![dec_digits(form.form_height as nat)] + form.list.deep_view(),
            ));
        }
        r
    }

    /// The argument list of a mixed form invocation: the row-count token,
    /// then the flattened field entries.
    pub fn mixed_form_args(&self, form: &MixedForm) -> (r: Vec<String>)
        ensures
            r.deep_view() == full_tokens(
                *self,
                "--mixedform"@,
                Some(form.text@),
                seq![dec_digits(form.form_height as nat)] + form.list.deep_view(),
            ),
    {
        let mut extra: Vec<String> = Vec::new();
        extra.push(u32_to_string(form.form_height));
        let mut items = form.list.clone();
        extra.append(&mut items);
        let r = self.build_args("--mixedform", &Some(form.text.clone()), extra);
        proof {
            assert(r.deep_view() =~~= full_tokens(
                *self,
                "--mixedform"@,
                Some(form.text@),
                seq![dec_digits(form.form_height as nat)] + form.list.deep_view(),
            ));
        }
        r
    }

    /// The argument list of a password form invocation: the row-count
    /// token, then the flattened field entries.
    pub fn password_form_args(&self, form: &PasswordForm) -> (r: Vec<String>)
        ensures
            r.deep_view() == full_tokens(
                *self,
                "--passwordform"@,
                Some(form.text@),
                seq![dec_digits(form.form_height as nat)] + form.list.deep_view(),
            ),
    {
        let mut extra: Vec<String> = Vec::new();
        extra.push(u32_to_string(form.form_height));
        let mut items = form.list.clone();
        extra.append(&mut items);
        let r = self.build_args("--passwordform", &Some(form.text.clone()), extra);
        proof {
            assert(r.deep_view() =~~= full_tokens(
                *self,
                "--passwordform"@,
                Some(form.text@),
                seq![dec_digits(form.form_height as nat)] + form.list.deep_view(),
            ));
        }
        r
    }

    /// The argument list of a file selection invocation, where the path
    /// validates: the normalized directory is the box-type argument, in
    /// place of a display text.  A missing path, and one whose check for an
    /// existing directory came back negative, fail with `InvalidPath`
    /// before any process could be spawned.
    pub fn file_selection_args(&self, file_selection: &FileSelection) -> (r: Result<
        Vec<String>,
        Error,
    >)
        ensures
            file_selection.path is None ==> (r matches Err(e) && e == Error::InvalidPath),
            r matches Err(e) ==> e == Error::InvalidPath,
            r matches Ok(v) ==> (file_selection.path matches Some(p) && v.deep_view()
                == full_tokens(
                *self,
                "--fselect"@,
                Some(p@ + "/"@),
                Seq::<Seq<char>>::empty(),
            )),
    {
        match file_selection.path_to_string() {
            Some(dir) => {
                let ghost dir_view = dir@;
                let v = self.build_args("--fselect", &Some(dir), Vec::new());
                proof {
                    assert(v.deep_view() =~~= full_tokens(
                        *self,
                        "--fselect"@,
                        Some(dir_view),
                        Seq::<Seq<char>>::empty(),
                    ));
                }
                Ok(v)
            },
            None => Err(Error::InvalidPath),
        }
    }
}

/// With no optional setting present, a serialized argument list holds
/// exactly the box-type flag, the box-type argument, and the height and
/// width tokens, followed by whatever type-specific tokens the variant
/// appends: no optional flag appears.
pub proof fn lemma_plain_config_args(
    d: Dialog,
    boxtype: Seq<char>,
    arg: Seq<char>,
    extra: Seq<Seq<char>>,
)
    requires
        d.backtitle is None,
        d.title is None,
        d.label_okbutton is None,
        d.label_extrabutton is None,
        d.label_cancelbutton is None,
        d.label_helpbutton is None,
        d.cancelbutton,
        !d.insecure,
    ensures
        full_tokens(d, boxtype, Some(arg), extra) == seq![boxtype, arg, d.height@, d.width@]
            + extra,
{
    assert(common_tokens(d) =~~= Seq::<Seq<char>>::empty());
    assert(full_tokens(d, boxtype, Some(arg), extra) =~~= seq![boxtype, arg, d.height@, d.width@]
        + extra);
}

impl Default for Dialog {
    /// The configuration with nothing set: no optional flags, auto-sized,
    /// secure echo, cancel button shown.
    fn default() -> (r: Dialog)
        ensures
            r.is_default(),
    {
        Dialog::new()
    }
}

/// The exact exit-code mapping of status-only invocations: code zero is
/// success, everything else fails with `ExternalToolFailed`.
pub open spec fn success_spec(code: Option<i32>) -> Result<(), Error> {
    if code == Some(0i32) {
        Ok(())
    } else {
        Err(Error::ExternalToolFailed { status: code })
    }
}

/// Classifies the exit code of a status-only invocation (message boxes,
/// gauges): code zero is success, everything else fails with
/// `ExternalToolFailed`.
pub fn require_success(code: Option<i32>) -> (r: Result<(), Error>)
    ensures
        r == success_spec(code),
{
    match code {
        Some(0i32) => Ok(()),
        _ => Err(Error::ExternalToolFailed { status: code }),
    }
}

/// The exact exit-code mapping of a question invocation: 0 is yes, 1 is no,
/// 255 is escape, everything else fails with `ExternalToolFailed`.
pub open spec fn choice_spec(code: Option<i32>) -> Result<Choice, Error> {
    if code == Some(0i32) {
        Ok(Choice::Yes)
    } else if code == Some(1i32) {
        Ok(Choice::No)
    } else if code == Some(255i32) {
        Ok(Choice::Escape)
    } else {
        Err(Error::ExternalToolFailed { status: code })
    }
}

/// Classifies the exit code of a question invocation: 0 is yes, 1 is no,
/// 255 is escape, everything else fails with `ExternalToolFailed`.
pub fn get_choice(code: Option<i32>) -> (r: Result<Choice, Error>)
    ensures
        r == choice_spec(code),
{
    match code {
        Some(0i32) => Ok(Choice::Yes),
        Some(1i32) => Ok(Choice::No),
        Some(255i32) => Ok(Choice::Escape),
        _ => Err(Error::ExternalToolFailed { status: code }),
    }
}

/// The button that an exit code of a text-producing invocation stands for:
/// 0 ok, 1 cancel, 2 help, 3 extra, 255 escape, and nothing for any other
/// code.
pub open spec fn code_choice(code: Option<i32>) -> Option<Choice> {
    match code {
        Some(c) => if c == 0 {
            Some(Choice::Yes)
        } else if c == 1 {
            Some(Choice::Cancel)
        } else if c == 2 {
            Some(Choice::Help)
        } else if c == 3 {
            Some(Choice::Extra)
        } else if c == 255 {
            Some(Choice::Escape)
        } else {
            None
        },
        None => None,
    }
}

/// Classifies the outcome of a text-producing invocation (input, password,
/// menu, form, file selection): the exit code picks the button choice, and
/// the captured error-stream bytes, decoded as UTF-8, are the dialog's
/// textual output, verbatim.  An unrecognized code fails with
/// `ExternalToolFailed`; bytes that are not valid UTF-8 fail with
/// `InvalidEncoding`.
pub fn get_choices(res: InvocationResult) -> (r: Result<(Choice, Option<String>), Error>)
    ensures
        code_choice(res.code) is None ==> (r matches Err(e) && e == (Error::ExternalToolFailed {
            status: res.code,
        })),
        code_choice(res.code) is Some && utf8_of(res.output@) is None ==> (r matches Err(e) && e
            == Error::InvalidEncoding),
        code_choice(res.code) is Some && utf8_of(res.output@) is Some ==> (r matches Ok(p)
            && Some(p.0) == code_choice(res.code) && (p.1 matches Some(t) && Some(t@) == utf8_of(
            res.output@,
        ))),
{
    let InvocationResult { code, output } = res;
    let choice = match code {
        Some(0i32) => Choice::Yes,
        Some(1i32) => Choice::Cancel,
        Some(2i32) => Choice::Help,
        Some(3i32) => Choice::Extra,
        Some(255i32) => Choice::Escape,
        _ => {
            return Err(Error::ExternalToolFailed { status: code });
        },
    };
    match decode_utf8(output) {
        Some(text) => Ok((choice, Some(text))),
        None => Err(Error::InvalidEncoding),
    }
}

} // verus!
