use nwg_core::error::{Error, NwgError, SystemError};
use nwg_core::font::{
    Font, FontT, CLEARTYPE_QUALITY, CLIP_DEFAULT_PRECIS, DEFAULT_CHARSET, FONT_DECO_ITALIC,
    FONT_DECO_NORMAL, FONT_DECO_STRIKEOUT, FONT_DECO_UNDERLINE, FONT_WEIGHT_BOLD,
    FONT_WEIGHT_NORMAL, OUT_DEFAULT_PRECIS, VARIABLE_PITCH,
};
use nwg_core::sys_class::{
    extern_canvas_class_setup, extern_canvas_proc, module_handle_check, tab_class_setup, tab_proc,
    COLOR_BTNFACE, CS_HREDRAW, CS_OWNDC, CS_VREDRAW, EXT_CANVAS_CLASS_ID, TAB_CLASS_ID,
    WM_CREATE, WM_ERASEBKGND,
};
use nwg_core::wide_string::to_utf16;

#[test]
fn utf16_of_empty_string_is_just_the_terminator() {
    assert_eq!(to_utf16(""), vec![0u16]);
}

#[test]
fn utf16_of_ascii_family_name() {
    assert_eq!(to_utf16("Arial"), vec![65, 114, 105, 97, 108, 0]);
}

#[test]
fn utf16_of_latin1_char() {
    assert_eq!(to_utf16("\u{e9}"), vec![0x00E9, 0]);
}

#[test]
fn utf16_of_astral_char_is_a_surrogate_pair() {
    assert_eq!(to_utf16("\u{1D11E}"), vec![0xD834, 0xDD1E, 0]);
}

#[test]
fn utf16_of_mixed_text() {
    assert_eq!(
        to_utf16("a\u{1F600}b"),
        vec![0x61, 0xD83D, 0xDE00, 0x62, 0]
    );
}

#[test]
fn extern_canvas_proc_answers_create_and_erase() {
    assert_eq!(extern_canvas_proc(WM_CREATE), Some(0));
    assert_eq!(extern_canvas_proc(WM_ERASEBKGND), Some(1));
    assert_eq!(extern_canvas_proc(0x000F), None);
}

#[test]
fn tab_proc_answers_create_only() {
    assert_eq!(tab_proc(WM_CREATE), Some(0));
    assert_eq!(tab_proc(WM_ERASEBKGND), None);
    assert_eq!(tab_proc(0x000F), None);
}

#[test]
fn extern_canvas_class_registration_parameters() {
    let setup = extern_canvas_class_setup();
    assert_eq!(setup.class_name, EXT_CANVAS_CLASS_ID);
    assert_eq!(setup.class_name, "NWG_EXTERN_CANVAS");
    assert_eq!(setup.background_brush, Some(0));
    assert_eq!(setup.style, Some(CS_OWNDC | CS_VREDRAW | CS_HREDRAW));
    assert_eq!(setup.style, Some(0x23));
}

#[test]
fn tab_class_registration_parameters() {
    let setup = tab_class_setup();
    assert_eq!(setup.class_name, TAB_CLASS_ID);
    assert_eq!(setup.class_name, "NWG_TAB");
    assert_eq!(setup.background_brush, Some(COLOR_BTNFACE as usize));
    assert_eq!(setup.background_brush, Some(15));
    assert_eq!(setup.style, None);
}

#[test]
fn null_module_handle_is_an_initialization_error() {
    assert_eq!(
        module_handle_check(0),
        Err(NwgError::InitializationError(
            "GetModuleHandleW failed".to_string()
        ))
    );
    assert_eq!(module_handle_check(0x1000), Ok(()));
}

#[test]
fn initialization_error_keeps_the_message() {
    let e = NwgError::initialization("boom");
    assert_eq!(e, NwgError::InitializationError("boom".to_string()));
}

#[test]
fn font_params_of_a_bold_italic_underlined_font() {
    let template = FontT {
        family: "Segoe UI".to_string(),
        size: 19,
        weight: FONT_WEIGHT_BOLD,
        decoration: FONT_DECO_ITALIC | FONT_DECO_UNDERLINE,
    };
    let p = template.creation_params();
    assert_eq!(p.height, 19);
    assert_eq!(p.width, 0);
    assert_eq!(p.escapement, 0);
    assert_eq!(p.orientation, 0);
    assert_eq!(p.weight, 700);
    assert_eq!(p.italic, 1);
    assert_eq!(p.underline, 1);
    assert_eq!(p.strikeout, 0);
    assert_eq!(p.char_set, DEFAULT_CHARSET);
    assert_eq!(p.output_precision, OUT_DEFAULT_PRECIS);
    assert_eq!(p.clip_precision, CLIP_DEFAULT_PRECIS);
    assert_eq!(p.quality, CLEARTYPE_QUALITY);
    assert_eq!(p.pitch_and_family, VARIABLE_PITCH);
    assert_eq!(
        p.face_name,
        vec![0x53, 0x65, 0x67, 0x6F, 0x65, 0x20, 0x55, 0x49, 0]
    );
}

#[test]
fn font_params_of_an_undecorated_font() {
    let template = FontT {
        family: "Consolas".to_string(),
        size: 0,
        weight: FONT_WEIGHT_NORMAL,
        decoration: FONT_DECO_NORMAL,
    };
    let p = template.creation_params();
    assert_eq!(p.height, 0);
    assert_eq!(p.weight, 400);
    assert_eq!(p.italic, 0);
    assert_eq!(p.underline, 0);
    assert_eq!(p.strikeout, 0);
}

#[test]
fn font_params_strikeout_flag() {
    let template = FontT {
        family: "Arial".to_string(),
        size: 12,
        weight: FONT_WEIGHT_NORMAL,
        decoration: FONT_DECO_STRIKEOUT,
    };
    let p = template.creation_params();
    assert_eq!(p.italic, 0);
    assert_eq!(p.underline, 0);
    assert_eq!(p.strikeout, 1);
}

#[test]
fn null_font_handle_is_a_creation_error() {
    assert_eq!(
        Font::from_raw_handle(0).map(|f| f.handle()),
        Err(Error::System(SystemError::FontCreation))
    );
}

#[test]
fn live_font_handle_is_kept() {
    let font = Font::from_raw_handle(0xBEEF).unwrap();
    assert_eq!(font.handle(), 0xBEEF);
}
