use vstd::prelude::*;

use crate::view::ui::Color;

verus! {

/// The HTML type of a rendered text input.
#[derive(Debug, Clone, Copy, PartialEq, Eq, Structural)]
pub enum InputType {
    Text,
    Password,
}

/// The attribute spelling of an input type.
pub open spec fn spec_input_type_name(t: InputType) -> Seq<char> {
    match t {
        InputType::Text => "text"@,
        InputType::Password => "password"@,
    }
}

impl InputType {
    /// The attribute spelling of this input type.
    pub fn as_str(&self) -> (r: &'static str)
        ensures
            r@ == spec_input_type_name(*self),
    {
        match self {
            InputType::Text => "text",
            InputType::Password => "password",
        }
    }
}

impl core::default::Default for InputType {
    /// Inputs are plain text unless asked otherwise.
    fn default() -> (r: Self)
        ensures
            r == InputType::Text,
    {
        InputType::Text
    }
}

/// What a rendered input field carries; unset parts are left off the
/// markup entirely.
#[derive(Debug)]
pub struct InputCfg {
    pub label: Option<&'static str>,
    pub placeholder: Option<&'static str>,
    pub color: Color,
    pub typ: InputType,
    pub required: bool,
    pub script: Option<&'static str>,
    pub spellcheck: Option<&'static str>,
    pub autofocus: bool,
    pub autocomplete: Option<&'static str>,
    pub ccn: Option<&'static str>,
}

impl core::default::Default for InputCfg {
    /// The starting configuration: a placeholder label, the default
    /// color, a plain text input, nothing else set.
    fn default() -> (r: Self)
        ensures
            r.label matches Some(l) && l@ == "label placeholder"@,
            r.placeholder is None,
            r.color == Color::Default,
            r.typ == InputType::Text,
            !r.required,
            r.script is None,
            r.spellcheck is None,
            !r.autofocus,
            r.autocomplete is None,
            r.ccn is None,
    {
        InputCfg {
            label: Some("label placeholder"),
            placeholder: None,
            color: Color::Default,
            typ: InputType::Text,
            required: false,
            script: None,
            spellcheck: None,
            autofocus: false,
            autocomplete: None,
            ccn: None,
        }
    }
}

/// Builds an input configuration step by step.
#[derive(Debug)]
pub struct InputCfgBuilder {
    pub cfg: InputCfg,
}

impl core::default::Default for InputCfgBuilder {
    /// A builder holding the starting configuration.
    fn default() -> (r: Self)
        ensures
            r.cfg.label matches Some(l) && l@ == "label placeholder"@,
            r.cfg.placeholder is None,
            r.cfg.color == Color::Default,
            r.cfg.typ == InputType::Text,
            !r.cfg.required,
            r.cfg.script is None,
            r.cfg.spellcheck is None,
            !r.cfg.autofocus,
            r.cfg.autocomplete is None,
            r.cfg.ccn is None,
    {
        InputCfgBuilder {
            cfg: InputCfg {
                label: Some("label placeholder"),
                placeholder: None,
                color: Color::Default,
                typ: InputType::Text,
                required: false,
                script: None,
                spellcheck: None,
                autofocus: false,
                autocomplete: None,
                ccn: None,
            },
        }
    }
}

impl InputCfgBuilder {
    /// A builder holding the starting configuration.
    pub fn new() -> (r: Self)
        ensures
            r.cfg.label matches Some(l) && l@ == "label placeholder"@,
            r.cfg.placeholder is None,
            r.cfg.color == Color::Default,
            r.cfg.typ == InputType::Text,
            !r.cfg.required,
            r.cfg.script is None,
            r.cfg.spellcheck is None,
            !r.cfg.autofocus,
            r.cfg.autocomplete is None,
            r.cfg.ccn is None,
    {
        InputCfgBuilder {
            cfg: InputCfg {
                label: Some("label placeholder"),
                placeholder: None,
                color: Color::Default,
                typ: InputType::Text,
                required: false,
                script: None,
                spellcheck: None,
                autofocus: false,
                autocomplete: None,
                ccn: None,
            },
        }
    }

    /// Sets the label, leaving the rest as it was.
    pub fn with_label(self, val: &'static str) -> (r: Self)
        ensures
            r.cfg == (InputCfg { label: Some(val), ..self.cfg }),
    {
        InputCfgBuilder { cfg: InputCfg { label: Some(val), ..self.cfg } }
    }

    /// Removes the label, leaving the rest as it was.
    pub fn with_no_label(self) -> (r: Self)
        ensures
            r.cfg == (InputCfg { label: None, ..self.cfg }),
    {
        InputCfgBuilder { cfg: InputCfg { label: None, ..self.cfg } }
    }

    /// Sets the input type, leaving the rest as it was.
    pub fn with_type(self, val: InputType) -> (r: Self)
        ensures
            r.cfg == (InputCfg { typ: val, ..self.cfg }),
    {
        InputCfgBuilder { cfg: InputCfg { typ: val, ..self.cfg } }
    }

    /// Sets the placeholder, leaving the rest as it was.
    pub fn with_placeholder(self, val: &'static str) -> (r: Self)
        ensures
            r.cfg == (InputCfg { placeholder: Some(val), ..self.cfg }),
    {
        InputCfgBuilder { cfg: InputCfg { placeholder: Some(val), ..self.cfg } }
    }

    /// Sets the color scheme, leaving the rest as it was.
    pub fn with_color(self, val: Color) -> (r: Self)
        ensures
            r.cfg == (InputCfg { color: val, ..self.cfg }),
    {
        InputCfgBuilder { cfg: InputCfg { color: val, ..self.cfg } }
    }

    /// Sets the inline script, leaving the rest as it was.
    pub fn with_script(self, val: &'static str) -> (r: Self)
        ensures
            r.cfg == (InputCfg { script: Some(val), ..self.cfg }),
    {
        InputCfgBuilder { cfg: InputCfg { script: Some(val), ..self.cfg } }
    }

    /// Sets the container class list, leaving the rest as it was.
    pub fn with_ccn(self, val: &'static str) -> (r: Self)
        ensures
            r.cfg == (InputCfg { ccn: Some(val), ..self.cfg }),
    {
        InputCfgBuilder { cfg: InputCfg { ccn: Some(val), ..self.cfg } }
    }

    /// Sets whether the input grabs focus, leaving the rest as it was.
    pub fn autofocus(self, val: bool) -> (r: Self)
        ensures
            r.cfg == (InputCfg { autofocus: val, ..self.cfg }),
    {
        InputCfgBuilder { cfg: InputCfg { autofocus: val, ..self.cfg } }
    }

    /// Sets the autocomplete hint, leaving the rest as it was.
    pub fn with_autocomplete(self, val: &'static str) -> (r: Self)
        ensures
            r.cfg == (InputCfg { autocomplete: Some(val), ..self.cfg }),
    {
        InputCfgBuilder { cfg: InputCfg { autocomplete: Some(val), ..self.cfg } }
    }

    /// Switches spell checking: on leaves the attribute off the markup,
    /// off writes it out as disabled. The rest stays as it was.
    pub fn spellcheck(self, val: bool) -> (r: Self)
        ensures
            val ==> r.cfg == (InputCfg { spellcheck: None, ..self.cfg }),
            !val ==> (r.cfg.spellcheck matches Some(s) && s@ == "false"@),
            !val ==> r.cfg == (InputCfg { spellcheck: r.cfg.spellcheck, ..self.cfg }),
    {
        if val {
            InputCfgBuilder { cfg: InputCfg { spellcheck: None, ..self.cfg } }
        } else {
            InputCfgBuilder { cfg: InputCfg { spellcheck: Some("false"), ..self.cfg } }
        }
    }

    /// Marks the input required, leaving the rest as it was.
    pub fn required(self) -> (r: Self)
        ensures
            r.cfg == (InputCfg { required: true, ..self.cfg }),
    {
        InputCfgBuilder { cfg: InputCfg { required: true, ..self.cfg } }
    }

    /// The finished configuration.
    pub fn build(&self) -> (r: &InputCfg)
        ensures
            *r == self.cfg,
    {
        &self.cfg
    }
}

/// The class list an input field takes from its color scheme. Only the
/// default scheme is rendered; the original leaves the others to fail at
/// run time, so they are excluded here.
pub fn input_color_cn(color: &Color) -> (r: &'static str)
    requires
        *color is Default,
    ensures
        r@ == "text-foreground bg-background-100 focus:ring-0 dark:placeholder-gray-400 focus:outline-none outline-none border-border focus:border-border-focus"@,
{
    "text-foreground bg-background-100 focus:ring-0 dark:placeholder-gray-400 focus:outline-none outline-none border-border focus:border-border-focus"
}

} // verus!
