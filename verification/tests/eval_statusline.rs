use nvim_libuv::eval_statusline::{
    EvalStatuslineOpts,
    KeyDict_eval_statusline,
    Window,
};
use nvim_types::{Object, ObjectKind};

#[test]
fn builder_starts_empty_and_build_keeps_every_field_unset() {
    let opts = EvalStatuslineOpts::builder().build();
    assert!(opts.fillchar.is_none());
    assert!(opts.highlights.is_none());
    assert!(opts.maxwidth.is_none());
    assert!(opts.use_tabline.is_none());
    assert!(opts.use_winbar.is_none());
    assert!(opts.window.is_none());
}

#[test]
fn default_options_leave_every_field_unset() {
    let opts = EvalStatuslineOpts::default();
    assert!(opts.fillchar.is_none());
    assert!(opts.highlights.is_none());
    assert!(opts.maxwidth.is_none());
    assert!(opts.use_tabline.is_none());
    assert!(opts.use_winbar.is_none());
    assert!(opts.window.is_none());
}

#[test]
fn setters_record_their_field_and_build_copies_them_over() {
    let opts = EvalStatuslineOpts::builder()
        .fillchar('-')
        .highlights(true)
        .maxwidth(80)
        .use_tabline(false)
        .use_winbar(true)
        .window(Window(3))
        .build();
    assert_eq!(opts.fillchar, Some('-'));
    assert_eq!(opts.highlights, Some(true));
    assert_eq!(opts.maxwidth, Some(80));
    assert_eq!(opts.use_tabline, Some(false));
    assert_eq!(opts.use_winbar, Some(true));
    assert_eq!(opts.window, Some(Window(3)));
}

#[test]
fn builder_can_build_more_than_once() {
    let mut builder = EvalStatuslineOpts::builder().maxwidth(120);
    let first = builder.build();
    let second = builder.build();
    assert_eq!(first.maxwidth, Some(120));
    assert_eq!(second.maxwidth, Some(120));
}

#[test]
fn unset_options_encode_as_nil_objects() {
    let opts = EvalStatuslineOpts::builder().build();
    let dict = KeyDict_eval_statusline::from(&opts);
    assert!(dict.winid.is_nil());
    assert!(dict.fillchar.is_nil());
    assert!(dict.maxwidth.is_nil());
    assert!(dict.highlights.is_nil());
    assert!(dict.use_winbar.is_nil());
    assert!(dict.use_tabline.is_nil());
}

#[test]
fn set_options_encode_as_typed_objects() {
    let opts = EvalStatuslineOpts::builder()
        .fillchar('x')
        .highlights(true)
        .maxwidth(80)
        .use_tabline(false)
        .use_winbar(true)
        .window(Window(7))
        .build();
    let dict = KeyDict_eval_statusline::from(&opts);
    assert_eq!(dict.winid.kind(), ObjectKind::Integer);
    assert_eq!(format!("{}", dict.winid), "7");
    assert_eq!(dict.fillchar, Object::from('x'));
    assert_eq!(dict.fillchar.kind(), ObjectKind::String);
    assert_eq!(dict.highlights.kind(), ObjectKind::Boolean);
    assert_eq!(dict.maxwidth.kind(), ObjectKind::Integer);
    assert_eq!(format!("{}", dict.maxwidth), "80");
    assert_eq!(dict.highlights, Object::from(true));
    assert_eq!(dict.use_winbar, Object::from(true));
    assert_eq!(dict.use_tabline, Object::from(false));
    assert!(!dict.fillchar.is_nil());
    assert_ne!(dict.fillchar, Object::from('y'));
    assert_ne!(dict.highlights, Object::from(false));
}

#[test]
fn window_context_encodes_the_window_handle() {
    let with_window = EvalStatuslineOpts::builder().window(Window(42)).build();
    let dict = KeyDict_eval_statusline::from(&with_window);
    assert_eq!(dict.winid.kind(), ObjectKind::Integer);
    assert_eq!(format!("{}", dict.winid), "42");
    assert_ne!(format!("{}", dict.winid), "41");
    assert!(!dict.winid.is_nil());
}
