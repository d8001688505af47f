use vstd::prelude::*;

use crate::view::ui::Color;
use crate::view::ui::spec_color_btn_cn;

verus! {

/// The HTML type attribute of a rendered button.
#[derive(Debug, Clone, Copy, PartialEq, Eq, Structural)]
pub enum ButtonType {
    Button,
    Submit,
    Reset,
}

/// The attribute spelling of a button type.
pub open spec fn spec_button_type_name(t: ButtonType) -> Seq<char> {
    match t {
        ButtonType::Button => "button"@,
        ButtonType::Submit => "submit"@,
        ButtonType::Reset => "reset"@,
    }
}

impl ButtonType {
    /// The attribute spelling of this button type.
    pub fn as_str(&self) -> (r: &'static str)
        ensures
            r@ == spec_button_type_name(*self),
    {
        match self {
            ButtonType::Button => "button",
            ButtonType::Submit => "submit",
            ButtonType::Reset => "reset",
        }
    }
}

/// The class list every rendered button starts from.
pub open spec fn spec_button_base_cn() -> Seq<char> {
    "focus:outline-none text-sm font-medium rounded-xs px-4 py-2 focus:ring-2 transition-opacity shadow-sm inline-flex h-9 items-center flex justify-center cursor:pointer"@
}

/// The full class list of a button: the base classes, the color scheme's
/// classes, and any extra classes, space-separated in that order.
pub open spec fn spec_button_class(c: Color, extra: Option<Seq<char>>) -> Seq<char> {
    let with_color = spec_button_base_cn() + seq![' '] + spec_color_btn_cn(c);
    match extra {
        Some(e) => with_color + seq![' '] + e,
        None => with_color,
    }
}

/// Composes the class list of a button from its color scheme and any
/// extra classes.
pub fn button_class(color: &Color, extra: Option<&str>) -> (r: String)
    ensures
        ({
            let e = match extra {
                Some(x) => Some(x@),
                None => None,
            };
            r@ == spec_button_class(*color, e)
        }),
{
    let mut out: String =
        "focus:outline-none text-sm font-medium rounded-xs px-4 py-2 focus:ring-2 transition-opacity shadow-sm inline-flex h-9 items-center flex justify-center cursor:pointer".to_owned();
    out.append(" ");
    out.append(color.cn_btn());
    if let Some(e) = extra {
        out.append(" ");
        out.append(e);
    }
    proof {
        reveal_strlit(" ");
        assert(" "@ =~= seq![' ']);
    }
    out
}

} // verus!
