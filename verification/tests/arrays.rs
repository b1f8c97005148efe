use dotlottie_ffi::arrays::{encode_all, encode_optional, DotLottieFloatArray, DotLottieMuti8Array};
use dotlottie_ffi::codec::EncodeError;
use dotlottie_ffi::float32::Float32;
use dotlottie_ffi::manifest::{
    DotLottieManifest, DotLottieManifestAnimation, DotLottieManifestAnimationArray,
    DotLottieManifestTheme, DotLottieManifestThemeArray, Manifest, ManifestAnimation,
    ManifestTheme,
};
use dotlottie_ffi::marker::{DotLottieMarker, DotLottieMarkerArray, Marker};

fn f(x: f32) -> Float32 {
    Float32::from_bits(x.to_bits())
}

fn s(text: &str) -> String {
    String::from(text)
}

fn native(text: &str) -> Vec<u8> {
    let mut bytes = text.as_bytes().to_vec();
    bytes.push(0);
    bytes
}

fn animation(id: &str) -> ManifestAnimation {
    ManifestAnimation {
        autoplay: true,
        default_theme: Some(s("dark")),
        direction: -1,
        hover: false,
        id: s(id),
        intermission: 250,
        loop_animation: true,
        loop_count: 3,
        play_mode: None,
        speed: f(1.25),
        theme_color: Some(s("#ff0000")),
    }
}

fn manifest() -> Manifest {
    Manifest {
        active_animation_id: Some(s("walk")),
        animations: vec![animation("walk"), animation("run")],
        author: Some(s("someone")),
        description: None,
        generator: Some(s("tool 1.0")),
        keywords: Some(s("a,b")),
        revision: 7,
        themes: vec![ManifestTheme { id: s("dark"), animations: vec![s("walk"), s("run")] }],
        states: vec![s("idle")],
        version: Some(s("1.0")),
    }
}

#[test]
fn float_array_holds_the_numbers() {
    let array = DotLottieFloatArray::new(vec![f(1.0), f(-2.0), f(0.5)]);
    assert_eq!(array.size, 3);
    assert_eq!(array.ptr, Some(vec![f(1.0), f(-2.0), f(0.5)]));
    let empty = DotLottieFloatArray::new(vec![]);
    assert_eq!(empty.size, 0);
    assert_eq!(empty.ptr, Some(vec![]));
}

#[test]
fn optional_text_encodes_to_optional_native_string() {
    assert_eq!(encode_optional(&None), Ok(None));
    assert_eq!(encode_optional(&Some(s("x"))), Ok(Some(native("x"))));
    assert_eq!(encode_optional(&Some(s("x\0"))), Err(EncodeError::InvalidEncoding));
}

#[test]
fn text_list_encodes_in_order() {
    assert_eq!(encode_all(&vec![]), Ok(vec![]));
    assert_eq!(encode_all(&vec![s("a"), s(""), s("bc")]), Ok(vec![native("a"), native(""), native("bc")]));
    assert_eq!(encode_all(&vec![s("a"), s("\0"), s("bc")]), Err(EncodeError::InvalidEncoding));
}

#[test]
fn string_array_holds_native_strings() {
    let array = DotLottieMuti8Array::new(vec![s("idle"), s("active")]).unwrap();
    assert_eq!(array.size, 2);
    assert_eq!(array.ptr, Some(vec![native("idle"), native("active")]));
    let empty = DotLottieMuti8Array::new(vec![]).unwrap();
    assert_eq!(empty.size, 0);
    assert_eq!(empty.ptr, Some(vec![]));
}

#[test]
fn string_array_fails_on_nul() {
    let result = DotLottieMuti8Array::new(vec![s("idle"), s("act\0ive")]);
    assert_eq!(result.err(), Some(EncodeError::InvalidEncoding));
}

#[test]
fn marker_crosses_with_its_numbers() {
    let marker = Marker { name: s("intro"), duration: f(30.0), time: f(12.5) };
    let record = DotLottieMarker::new(&marker).unwrap();
    assert_eq!(record.name, native("intro"));
    assert_eq!(record.duration, f(30.0));
    assert_eq!(record.time, f(12.5));
}

#[test]
fn marker_with_nul_in_name_cannot_cross() {
    let marker = Marker { name: s("in\0tro"), duration: f(30.0), time: f(12.5) };
    assert_eq!(DotLottieMarker::new(&marker).err(), Some(EncodeError::InvalidEncoding));
}

#[test]
fn marker_array_holds_every_marker_in_order() {
    let markers = vec![
        Marker { name: s("a"), duration: f(1.0), time: f(0.0) },
        Marker { name: s("b"), duration: f(2.0), time: f(1.0) },
        Marker { name: s("c"), duration: f(3.0), time: f(3.0) },
    ];
    let array = DotLottieMarkerArray::new(markers).unwrap();
    assert_eq!(array.size, 3);
    let records = array.ptr.unwrap();
    assert_eq!(records.len(), 3);
    assert_eq!(records[0].name, native("a"));
    assert_eq!(records[1].name, native("b"));
    assert_eq!(records[2].name, native("c"));
    assert_eq!(records[1].duration, f(2.0));
    assert_eq!(records[2].time, f(3.0));
}

#[test]
fn marker_array_fails_on_nul() {
    let markers = vec![
        Marker { name: s("a"), duration: f(1.0), time: f(0.0) },
        Marker { name: s("\0"), duration: f(2.0), time: f(1.0) },
    ];
    assert_eq!(DotLottieMarkerArray::new(markers).err(), Some(EncodeError::InvalidEncoding));
}

#[test]
fn copy_all_fills_the_front_of_the_buffer() {
    let filler = DotLottieMarker { name: native("old"), duration: f(9.0), time: f(9.0) };
    let mut buffer = vec![filler.clone(), filler.clone(), filler.clone()];
    let records = vec![
        DotLottieMarker { name: native("x"), duration: f(1.0), time: f(2.0) },
        DotLottieMarker { name: native("y"), duration: f(3.0), time: f(4.0) },
    ];
    assert!(DotLottieMarker::copy_all(records, &mut buffer));
    assert_eq!(buffer[0].name, native("x"));
    assert_eq!(buffer[0].time, f(2.0));
    assert_eq!(buffer[1].name, native("y"));
    assert_eq!(buffer[1].duration, f(3.0));
    assert_eq!(buffer[2].name, native("old"));
    assert_eq!(buffer[2].duration, f(9.0));
}

#[test]
fn manifest_animation_crosses_field_for_field() {
    let record = DotLottieManifestAnimation::new(&animation("walk")).unwrap();
    assert!(record.autoplay);
    assert_eq!(record.default_theme, Some(native("dark")));
    assert_eq!(record.direction, -1);
    assert!(!record.hover);
    assert_eq!(record.id, native("walk"));
    assert_eq!(record.intermission, 250);
    assert!(record.loop_animation);
    assert_eq!(record.loop_count, 3);
    assert_eq!(record.play_mode, None);
    assert_eq!(record.speed, f(1.25));
    assert_eq!(record.theme_color, Some(native("#ff0000")));
}

#[test]
fn manifest_animation_array_keeps_order() {
    let array =
        DotLottieManifestAnimationArray::new(vec![animation("a"), animation("b"), animation("c")])
            .unwrap();
    assert_eq!(array.size, 3);
    let records = array.ptr.unwrap();
    assert_eq!(records[0].id, native("a"));
    assert_eq!(records[1].id, native("b"));
    assert_eq!(records[2].id, native("c"));
}

#[test]
fn manifest_animation_array_fails_on_nul() {
    let mut bad = animation("b");
    bad.play_mode = Some(s("bo\0unce"));
    let result = DotLottieManifestAnimationArray::new(vec![animation("a"), bad]);
    assert_eq!(result.err(), Some(EncodeError::InvalidEncoding));
}

#[test]
fn manifest_theme_crosses_with_its_animations() {
    let theme = ManifestTheme { id: s("dark"), animations: vec![s("walk"), s("run")] };
    let record = DotLottieManifestTheme::new(&theme).unwrap();
    assert_eq!(record.id, native("dark"));
    assert_eq!(record.animations.size, 2);
    assert_eq!(record.animations.ptr, Some(vec![native("walk"), native("run")]));
}

#[test]
fn manifest_theme_array_fails_on_nul() {
    let themes = vec![
        ManifestTheme { id: s("dark"), animations: vec![s("walk")] },
        ManifestTheme { id: s("light"), animations: vec![s("wa\0lk")] },
    ];
    assert_eq!(DotLottieManifestThemeArray::new(themes).err(), Some(EncodeError::InvalidEncoding));
    let themes = vec![ManifestTheme { id: s("da\0rk"), animations: vec![] }];
    assert_eq!(DotLottieManifestThemeArray::new(themes).err(), Some(EncodeError::InvalidEncoding));
}

#[test]
fn manifest_crosses_whole() {
    let record = DotLottieManifest::new(manifest()).unwrap();
    assert_eq!(record.active_animation_id, Some(native("walk")));
    assert_eq!(record.animations.size, 2);
    assert_eq!(record.animations.ptr.as_ref().unwrap()[1].id, native("run"));
    assert_eq!(record.author, Some(native("someone")));
    assert_eq!(record.description, None);
    assert_eq!(record.generator, Some(native("tool 1.0")));
    assert_eq!(record.keywords, Some(native("a,b")));
    assert_eq!(record.revision, 7);
    assert_eq!(record.themes.size, 1);
    let themes = record.themes.ptr.as_ref().unwrap();
    assert_eq!(themes[0].id, native("dark"));
    assert_eq!(themes[0].animations.ptr, Some(vec![native("walk"), native("run")]));
    assert_eq!(record.states.size, 1);
    assert_eq!(record.states.ptr, Some(vec![native("idle")]));
    assert_eq!(record.version, Some(native("1.0")));
}

#[test]
fn manifest_with_nul_anywhere_cannot_cross() {
    let mut m = manifest();
    m.author = Some(s("some\0one"));
    assert_eq!(DotLottieManifest::new(m).err(), Some(EncodeError::InvalidEncoding));
    let mut m = manifest();
    m.states = vec![s("id\0le")];
    assert_eq!(DotLottieManifest::new(m).err(), Some(EncodeError::InvalidEncoding));
    let mut m = manifest();
    m.animations[1].id = s("\0");
    assert_eq!(DotLottieManifest::new(m).err(), Some(EncodeError::InvalidEncoding));
    let mut m = manifest();
    m.themes[0].animations[0] = s("w\0");
    assert_eq!(DotLottieManifest::new(m).err(), Some(EncodeError::InvalidEncoding));
}

#[test]
fn copy_all_leaves_a_short_buffer_alone() {
    let filler = DotLottieMarker { name: native("old"), duration: f(9.0), time: f(9.0) };
    let mut buffer = vec![filler.clone()];
    let records = vec![
        DotLottieMarker { name: native("x"), duration: f(1.0), time: f(2.0) },
        DotLottieMarker { name: native("y"), duration: f(3.0), time: f(4.0) },
    ];
    assert!(!DotLottieMarker::copy_all(records, &mut buffer));
    assert_eq!(buffer[0].name, native("old"));
    assert_eq!(buffer[0].duration, f(9.0));
    assert!(DotLottieMarker::copy_all(Vec::new(), &mut buffer));
    assert_eq!(buffer[0].name, native("old"));
}
