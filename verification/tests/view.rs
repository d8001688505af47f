use brp_web::view::hx::HxCfg;
use brp_web::view::hx::HxHeaderBuilder;
use brp_web::view::hx::HxSwap;
use brp_web::view::ui::Color;
use brp_web::view::ui::button::ButtonType;
use brp_web::view::ui::button::button_class;
use brp_web::view::ui::datepicker::DatePickerCfgBuilder;
use brp_web::view::ui::input::InputCfgBuilder;
use brp_web::view::ui::input::InputType;
use brp_web::view::ui::input::input_color_cn;

#[test]
fn hx_cfg_builders_set_one_field_each() {
    let cfg = HxCfg::new();
    assert!(cfg.post.is_none());
    assert!(cfg.get.is_none());

    let cfg = HxCfg::new().with_post("/logout");
    assert_eq!(cfg.post, Some("/logout"));
    assert!(cfg.get.is_none());
    assert!(cfg.trigger.is_none());

    let cfg = HxCfg::new()
        .with_get("/q")
        .with_vals("{\"chapter\":1}")
        .with_target("#chapter-content")
        .with_swap("outerHTML")
        .with_select_oob("#readings")
        .with_trigger("click")
        .with_disabled_elt("#submit")
        .with_script("on click log me");
    assert_eq!(cfg.get, Some("/q"));
    assert_eq!(cfg.vals, Some("{\"chapter\":1}"));
    assert_eq!(cfg.target, Some("#chapter-content"));
    assert_eq!(cfg.swap, Some("outerHTML"));
    assert_eq!(cfg.select_oob, Some("#readings"));
    assert_eq!(cfg.trigger, Some("click"));
    assert_eq!(cfg.disabled_elt, Some("#submit"));
    assert_eq!(cfg.script, Some("on click log me"));
    assert!(cfg.post.is_none());
}

#[test]
fn hx_swap_wire_names() {
    assert_eq!(HxSwap::InnerHTML.as_str(), "innerHTML");
    assert_eq!(HxSwap::OuterHTML.as_str(), "outerHTML");
    assert_eq!(HxSwap::BeforeBegin.as_str(), "beforebegin");
    assert_eq!(HxSwap::AfterBegin.as_str(), "afterbegin");
    assert_eq!(HxSwap::BeforeEnd.as_str(), "beforeend");
    assert_eq!(HxSwap::AfterEnd.as_str(), "afterend");
    assert_eq!(HxSwap::Delete.as_str(), "delete");
    assert_eq!(HxSwap::NoSwap.as_str(), "none");
}

#[test]
fn hx_header_builder_chains() {
    let b = HxHeaderBuilder::new()
        .with_swap(HxSwap::NoSwap)
        .with_redirect("/login");
    assert!(b.target.is_none());
    assert_eq!(b.swap, Some(HxSwap::NoSwap));
    assert_eq!(b.redirect, Some("/login"));

    let b = HxHeaderBuilder::new().with_target("#modal-container");
    assert_eq!(b.target, Some("#modal-container"));
    assert!(b.swap.is_none());
}

#[test]
fn button_type_names() {
    assert_eq!(ButtonType::Button.as_str(), "button");
    assert_eq!(ButtonType::Submit.as_str(), "submit");
    assert_eq!(ButtonType::Reset.as_str(), "reset");
}

#[test]
fn button_class_composition() {
    let base = "focus:outline-none text-sm font-medium rounded-xs px-4 py-2 focus:ring-2 transition-opacity shadow-sm inline-flex h-9 items-center flex justify-center cursor:pointer";

    let plain = button_class(&Color::Default, None);
    assert_eq!(plain, format!("{} {}", base, Color::Default.cn_btn()));

    let extra = button_class(&Color::Alternative, Some("w-full"));
    assert_eq!(extra, format!("{} {} w-full", base, Color::Alternative.cn_btn()));
}

#[test]
fn color_button_classes_differ() {
    assert!(Color::Default.cn_btn().contains("bg-gray-800"));
    assert!(Color::Alternative.cn_btn().contains("bg-background/10"));
    assert_ne!(Color::Blue.cn_btn(), Color::Green.cn_btn());
}

#[test]
fn datepicker_builder() {
    let b = DatePickerCfgBuilder::new();
    assert!(b.build().id.is_none());
    assert!(b.build().name.is_none());

    let b = DatePickerCfgBuilder::new()
        .with_id("start-date-picker")
        .with_value("1/1/2024")
        .with_placeholder("pick a date")
        .with_script("on changeDate log me");
    let cfg = b.build();
    assert_eq!(cfg.id, Some("start-date-picker"));
    assert_eq!(cfg.name, Some("start-date-picker"));
    assert_eq!(cfg.value, Some("1/1/2024"));
    assert_eq!(cfg.placeholder, Some("pick a date"));
    assert_eq!(cfg.script.as_deref(), Some("on changeDate log me"));

    let b = DatePickerCfgBuilder::new().with_id("a").with_name("b");
    assert_eq!(b.build().id, Some("a"));
    assert_eq!(b.build().name, Some("b"));
}

#[test]
fn input_builder() {
    let cfg = InputCfgBuilder::new();
    assert_eq!(cfg.build().label, Some("label placeholder"));
    assert_eq!(cfg.build().typ, InputType::Text);
    assert!(!cfg.build().required);

    let b = InputCfgBuilder::new()
        .with_label("Password")
        .with_type(InputType::Password)
        .with_autocomplete("current-password")
        .with_ccn("mt-4")
        .autofocus(true)
        .spellcheck(false)
        .required();
    let cfg = b.build();
    assert_eq!(cfg.label, Some("Password"));
    assert_eq!(cfg.typ, InputType::Password);
    assert_eq!(cfg.autocomplete, Some("current-password"));
    assert_eq!(cfg.ccn, Some("mt-4"));
    assert!(cfg.autofocus);
    assert_eq!(cfg.spellcheck, Some("false"));
    assert!(cfg.required);

    let b = InputCfgBuilder::new().with_no_label().spellcheck(true);
    assert_eq!(b.build().label, None);
    assert_eq!(b.build().spellcheck, None);

    assert_eq!(InputType::Text.as_str(), "text");
    assert_eq!(InputType::Password.as_str(), "password");
}

#[test]
fn input_default_color_classes() {
    let cn = input_color_cn(&Color::Default);
    assert!(cn.starts_with("text-foreground"));
}
