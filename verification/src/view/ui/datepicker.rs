use vstd::prelude::*;

verus! {

/// What a rendered date picker carries; unset parts are left off the
/// markup entirely.
#[derive(Debug)]
pub struct DatePickerCfg<'a> {
    pub id: Option<&'a str>,
    pub name: Option<&'a str>,
    pub value: Option<&'a str>,
    pub placeholder: Option<&'a str>,
    pub script: Option<String>,
}

impl<'a> core::default::Default for DatePickerCfg<'a> {
    /// A configuration with nothing set.
    fn default() -> (r: Self)
        ensures
            r.id is None,
            r.name is None,
            r.value is None,
            r.placeholder is None,
            r.script is None,
    {
        DatePickerCfg { id: None, name: None, value: None, placeholder: None, script: None }
    }
}

/// Builds a date picker configuration step by step.
#[derive(Debug)]
pub struct DatePickerCfgBuilder<'a> {
    pub cfg: DatePickerCfg<'a>,
}

impl<'a> core::default::Default for DatePickerCfgBuilder<'a> {
    /// A builder holding a configuration with nothing set.
    fn default() -> (r: Self)
        ensures
            r.cfg.id is None,
            r.cfg.name is None,
            r.cfg.value is None,
            r.cfg.placeholder is None,
            r.cfg.script is None,
    {
        DatePickerCfgBuilder {
            cfg: DatePickerCfg { id: None, name: None, value: None, placeholder: None, script: None },
        }
    }
}

impl<'a> DatePickerCfgBuilder<'a> {
    /// A builder holding a configuration with nothing set.
    pub fn new() -> (r: Self)
        ensures
            r.cfg.id is None,
            r.cfg.name is None,
            r.cfg.value is None,
            r.cfg.placeholder is None,
            r.cfg.script is None,
    {
        DatePickerCfgBuilder {
            cfg: DatePickerCfg { id: None, name: None, value: None, placeholder: None, script: None },
        }
    }

    /// Sets the element id, and with it the input name, leaving the rest
    /// as it was.
    pub fn with_id(self, val: &'a str) -> (r: Self)
        ensures
            r.cfg == (DatePickerCfg { id: Some(val), name: Some(val), ..self.cfg }),
    {
        DatePickerCfgBuilder { cfg: DatePickerCfg { id: Some(val), name: Some(val), ..self.cfg } }
    }

    /// Sets the input name alone, leaving the rest as it was.
    pub fn with_name(self, val: &'a str) -> (r: Self)
        ensures
            r.cfg == (DatePickerCfg { name: Some(val), ..self.cfg }),
    {
        DatePickerCfgBuilder { cfg: DatePickerCfg { name: Some(val), ..self.cfg } }
    }

    /// Sets the preset value, leaving the rest as it was.
    pub fn with_value(self, val: &'a str) -> (r: Self)
        ensures
            r.cfg == (DatePickerCfg { value: Some(val), ..self.cfg }),
    {
        DatePickerCfgBuilder { cfg: DatePickerCfg { value: Some(val), ..self.cfg } }
    }

    /// Sets the placeholder, leaving the rest as it was.
    pub fn with_placeholder(self, val: &'a str) -> (r: Self)
        ensures
            r.cfg == (DatePickerCfg { placeholder: Some(val), ..self.cfg }),
    {
        DatePickerCfgBuilder { cfg: DatePickerCfg { placeholder: Some(val), ..self.cfg } }
    }

    /// Sets the inline script, leaving the rest as it was.
    pub fn with_script(self, val: &str) -> (r: Self)
        ensures
            r.cfg.id == self.cfg.id,
            r.cfg.name == self.cfg.name,
            r.cfg.value == self.cfg.value,
            r.cfg.placeholder == self.cfg.placeholder,
            r.cfg.script matches Some(s) && s@ == val@,
    {
        let script: String = val.to_owned();
        DatePickerCfgBuilder { cfg: DatePickerCfg { script: Some(script), ..self.cfg } }
    }

    /// The finished configuration.
    pub fn build(&self) -> (r: &DatePickerCfg<'a>)
        ensures
            *r == self.cfg,
    {
        &self.cfg
    }
}

} // verus!
