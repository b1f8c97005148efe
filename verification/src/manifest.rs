//! The animation manifest, as the engine reports it and as it crosses the
//! boundary.
//!
//! The engine-side records hold owned strings. The boundary-side records hold
//! native strings and pointer-and-length arrays whose ownership passes to the
//! caller. A manifest crosses whole or not at all: one text with a NUL in it
//! fails the conversion.

use vstd::prelude::*;

use crate::arrays::{
    all_encodable, encode_optional, encodes_optional, optional_encodable, DotLottieMuti8Array,
};
use crate::codec::{encodable, encoded, to_mut_i8, EncodeError};
use crate::float32::Float32;

verus! {

/// Playback settings of one animation, as the manifest lists them.
#[derive(Clone, Debug)]
pub struct ManifestAnimation {
    pub autoplay: bool,
    pub default_theme: Option<String>,
    pub direction: i8,
    pub hover: bool,
    pub id: String,
    pub intermission: u32,
    pub loop_animation: bool,
    pub loop_count: u32,
    pub play_mode: Option<String>,
    pub speed: Float32,
    pub theme_color: Option<String>,
}

/// A theme and the animations it applies to.
#[derive(Clone, Debug)]
pub struct ManifestTheme {
    pub id: String,
    pub animations: Vec<String>,
}

/// The manifest of a loaded animation file.
#[derive(Clone, Debug)]
pub struct Manifest {
    pub active_animation_id: Option<String>,
    pub animations: Vec<ManifestAnimation>,
    pub author: Option<String>,
    pub description: Option<String>,
    pub generator: Option<String>,
    pub keywords: Option<String>,
    pub revision: u32,
    pub themes: Vec<ManifestTheme>,
    pub states: Vec<String>,
    pub version: Option<String>,
}

impl ManifestAnimation {
    /// Every text of the record can be carried by a native string.
    pub open spec fn is_encodable(self) -> bool {
        &&& optional_encodable(self.default_theme)
        &&& encodable(self.id@)
        &&& optional_encodable(self.play_mode)
        &&& optional_encodable(self.theme_color)
    }
}

impl ManifestTheme {
    /// Every text of the record can be carried by a native string.
    pub open spec fn is_encodable(self) -> bool {
        &&& encodable(self.id@)
        &&& all_encodable(self.animations@)
    }
}

/// Every animation record of the sequence can cross the boundary.
pub open spec fn animations_encodable(animations: Seq<ManifestAnimation>) -> bool {
    forall|i: int| 0 <= i < animations.len() ==> (#[trigger] animations[i]).is_encodable()
}

/// Every theme record of the sequence can cross the boundary.
pub open spec fn themes_encodable(themes: Seq<ManifestTheme>) -> bool {
    forall|i: int| 0 <= i < themes.len() ==> (#[trigger] themes[i]).is_encodable()
}

impl Manifest {
    /// Every text of the manifest can be carried by a native string.
    pub open spec fn is_encodable(self) -> bool {
        &&& optional_encodable(self.active_animation_id)
        &&& animations_encodable(self.animations@)
        &&& optional_encodable(self.author)
        &&& optional_encodable(self.description)
        &&& optional_encodable(self.generator)
        &&& optional_encodable(self.keywords)
        &&& themes_encodable(self.themes@)
        &&& all_encodable(self.states@)
        &&& optional_encodable(self.version)
    }
}

/// One animation record in its boundary form.
#[derive(Clone, Debug)]
pub struct DotLottieManifestAnimation {
    pub autoplay: bool,
    pub default_theme: Option<Vec<u8>>,
    pub direction: i8,
    pub hover: bool,
    pub id: Vec<u8>,
    pub intermission: u32,
    pub loop_animation: bool,
    pub loop_count: u32,
    pub play_mode: Option<Vec<u8>>,
    pub speed: Float32,
    pub theme_color: Option<Vec<u8>>,
}

impl DotLottieManifestAnimation {
    /// The record carries `animation` field for field, texts as native strings.
    pub open spec fn represents(self, animation: ManifestAnimation) -> bool {
        &&& self.autoplay == animation.autoplay
        &&& encodes_optional(self.default_theme, animation.default_theme)
        &&& self.direction == animation.direction
        &&& self.hover == animation.hover
        &&& self.id@ == encoded(animation.id@)
        &&& self.intermission == animation.intermission
        &&& self.loop_animation == animation.loop_animation
        &&& self.loop_count == animation.loop_count
        &&& encodes_optional(self.play_mode, animation.play_mode)
        &&& self.speed == animation.speed
        &&& encodes_optional(self.theme_color, animation.theme_color)
    }

    /// Converts one animation record.
    pub fn new(animation: &ManifestAnimation) -> (result: Result<
        DotLottieManifestAnimation,
        EncodeError,
    >)
        ensures
            animation.is_encodable() ==> (result matches Ok(record) && record.represents(
                *animation,
            )),
            !animation.is_encodable() ==> (result matches Err(e) && e
                == EncodeError::InvalidEncoding),
    {
        let default_theme = match encode_optional(&animation.default_theme) {
            Ok(bytes) => bytes,
            Err(_) => {
                return Err(EncodeError::InvalidEncoding);
            },
        };
        let id = match to_mut_i8(animation.id.as_str()) {
            Ok(bytes) => bytes,
            Err(_) => {
                return Err(EncodeError::InvalidEncoding);
            },
        };
        let play_mode = match encode_optional(&animation.play_mode) {
            Ok(bytes) => bytes,
            Err(_) => {
                return Err(EncodeError::InvalidEncoding);
            },
        };
        let theme_color = match encode_optional(&animation.theme_color) {
            Ok(bytes) => bytes,
            Err(_) => {
                return Err(EncodeError::InvalidEncoding);
            },
        };
        Ok(
            DotLottieManifestAnimation {
                autoplay: animation.autoplay,
                default_theme,
                direction: animation.direction,
                hover: animation.hover,
                id,
                intermission: animation.intermission,
                loop_animation: animation.loop_animation,
                loop_count: animation.loop_count,
                play_mode,
                speed: animation.speed,
                theme_color,
            },
        )
    }
}

/// The animation records of a manifest, as pointer and length.
#[derive(Clone, Debug)]
pub struct DotLottieManifestAnimationArray {
    pub ptr: Option<Vec<DotLottieManifestAnimation>>,
    pub size: usize,
}

impl DotLottieManifestAnimationArray {
    /// The count describes what is at the pointer; a null pointer has count zero.
    pub open spec fn wf(self) -> bool {
        match self.ptr {
            Some(records) => self.size == records@.len(),
            None => self.size == 0,
        }
    }

    /// The array holds, in order, the boundary form of each of `animations`.
    pub open spec fn represents(self, animations: Seq<ManifestAnimation>) -> bool {
        &&& self.size == animations.len()
        &&& self.ptr matches Some(records)
        &&& records@.len() == animations.len()
        &&& forall|i: int|
            0 <= i < animations.len() ==> (#[trigger] records@[i]).represents(animations[i])
    }

    /// Converts every animation record and hands the array over.
    pub fn new(manifests: Vec<ManifestAnimation>) -> (result: Result<
        DotLottieManifestAnimationArray,
        EncodeError,
    >)
        ensures
            animations_encodable(manifests@) ==> (result matches Ok(array) && array.represents(
                manifests@,
            ) && array.wf()),
            !animations_encodable(manifests@) ==> (result matches Err(e) && e
                == EncodeError::InvalidEncoding),
    {
        let mut records: Vec<DotLottieManifestAnimation> = Vec::new();
        let mut i: usize = 0;
        while i < manifests.len()
            invariant
                i <= manifests@.len(),
                records@.len() == i,
                forall|j: int| 0 <= j < i ==> (#[trigger] manifests@[j]).is_encodable(),
                forall|j: int| 0 <= j < i ==> (#[trigger] records@[j]).represents(manifests@[j]),
            decreases manifests@.len() - i,
        {
            match DotLottieManifestAnimation::new(&manifests[i]) {
                Ok(record) => records.push(record),
                Err(_) => {
                    return Err(EncodeError::InvalidEncoding);
                },
            }
            i += 1;
        }
        let size: usize = records.len();
        Ok(DotLottieManifestAnimationArray { ptr: Some(records), size })
    }
}

/// One theme record in its boundary form.
#[derive(Clone, Debug)]
pub struct DotLottieManifestTheme {
    pub id: Vec<u8>,
    pub animations: DotLottieMuti8Array,
}

impl DotLottieManifestTheme {
    /// The record carries `theme`: its id and, in order, its animation ids.
    pub open spec fn represents(self, theme: ManifestTheme) -> bool {
        &&& self.id@ == encoded(theme.id@)
        &&& self.animations.represents(theme.animations@)
        &&& self.animations.wf()
    }

    /// Converts one theme record.
    pub fn new(theme: &ManifestTheme) -> (result: Result<DotLottieManifestTheme, EncodeError>)
        ensures
            theme.is_encodable() ==> (result matches Ok(record) && record.represents(*theme)),
            !theme.is_encodable() ==> (result matches Err(e) && e == EncodeError::InvalidEncoding),
    {
        let id = match to_mut_i8(theme.id.as_str()) {
            Ok(bytes) => bytes,
            Err(_) => {
                return Err(EncodeError::InvalidEncoding);
            },
        };
        let animations = match DotLottieMuti8Array::new(theme.animations.clone()) {
            Ok(array) => array,
            Err(_) => {
                return Err(EncodeError::InvalidEncoding);
            },
        };
        Ok(DotLottieManifestTheme { id, animations })
    }
}

/// The theme records of a manifest, as pointer and length.
#[derive(Clone, Debug)]
pub struct DotLottieManifestThemeArray {
    pub ptr: Option<Vec<DotLottieManifestTheme>>,
    pub size: usize,
}

impl DotLottieManifestThemeArray {
    /// The count describes what is at the pointer; a null pointer has count zero.
    pub open spec fn wf(self) -> bool {
        match self.ptr {
            Some(records) => self.size == records@.len(),
            None => self.size == 0,
        }
    }

    /// The array holds, in order, the boundary form of each of `themes`.
    pub open spec fn represents(self, themes: Seq<ManifestTheme>) -> bool {
        &&& self.size == themes.len()
        &&& self.ptr matches Some(records)
        &&& records@.len() == themes.len()
        &&& forall|i: int| 0 <= i < themes.len() ==> (#[trigger] records@[i]).represents(themes[i])
    }

    /// Converts every theme record and hands the array over.
    pub fn new(manifest_themes: Vec<ManifestTheme>) -> (result: Result<
        DotLottieManifestThemeArray,
        EncodeError,
    >)
        ensures
            themes_encodable(manifest_themes@) ==> (result matches Ok(array) && array.represents(
                manifest_themes@,
            ) && array.wf()),
            !themes_encodable(manifest_themes@) ==> (result matches Err(e) && e
                == EncodeError::InvalidEncoding),
    {
        let mut records: Vec<DotLottieManifestTheme> = Vec::new();
        let mut i: usize = 0;
        while i < manifest_themes.len()
            invariant
                i <= manifest_themes@.len(),
                records@.len() == i,
                forall|j: int| 0 <= j < i ==> (#[trigger] manifest_themes@[j]).is_encodable(),
                forall|j: int|
                    0 <= j < i ==> (#[trigger] records@[j]).represents(manifest_themes@[j]),
            decreases manifest_themes@.len() - i,
        {
            match DotLottieManifestTheme::new(&manifest_themes[i]) {
                Ok(record) => records.push(record),
                Err(_) => {
                    return Err(EncodeError::InvalidEncoding);
                },
            }
            i += 1;
        }
        let size: usize = records.len();
        Ok(DotLottieManifestThemeArray { ptr: Some(records), size })
    }
}

/// The manifest in its boundary form.
#[derive(Clone, Debug)]
pub struct DotLottieManifest {
    pub active_animation_id: Option<Vec<u8>>,
    pub animations: DotLottieManifestAnimationArray,
    pub author: Option<Vec<u8>>,
    pub description: Option<Vec<u8>>,
    pub generator: Option<Vec<u8>>,
    pub keywords: Option<Vec<u8>>,
    pub revision: u32,
    pub themes: DotLottieManifestThemeArray,
    pub states: DotLottieMuti8Array,
    pub version: Option<Vec<u8>>,
}

impl DotLottieManifest {
    /// Every array of the record is well formed.
    pub open spec fn wf(self) -> bool {
        &&& self.animations.wf()
        &&& self.themes.wf()
        &&& self.states.wf()
    }

    /// The record carries `manifest` field for field.
    pub open spec fn represents(self, manifest: Manifest) -> bool {
        &&& encodes_optional(self.active_animation_id, manifest.active_animation_id)
        &&& self.animations.represents(manifest.animations@)
        &&& encodes_optional(self.author, manifest.author)
        &&& encodes_optional(self.description, manifest.description)
        &&& encodes_optional(self.generator, manifest.generator)
        &&& encodes_optional(self.keywords, manifest.keywords)
        &&& self.revision == manifest.revision
        &&& self.themes.represents(manifest.themes@)
        &&& self.states.represents(manifest.states@)
        &&& encodes_optional(self.version, manifest.version)
    }

    /// Converts a manifest for the caller, who owns every string and array
    /// of the result.
    pub fn new(manifest: Manifest) -> (result: Result<DotLottieManifest, EncodeError>)
        ensures
            manifest.is_encodable() ==> (result matches Ok(record) && record.represents(manifest)
                && record.wf()),
            !manifest.is_encodable() ==> (result matches Err(e) && e
                == EncodeError::InvalidEncoding),
    {
        let active_animation_id = match encode_optional(&manifest.active_animation_id) {
            Ok(bytes) => bytes,
            Err(_) => {
                return Err(EncodeError::InvalidEncoding);
            },
        };
        let author = match encode_optional(&manifest.author) {
            Ok(bytes) => bytes,
            Err(_) => {
                return Err(EncodeError::InvalidEncoding);
            },
        };
        let description = match encode_optional(&manifest.description) {
            Ok(bytes) => bytes,
            Err(_) => {
                return Err(EncodeError::InvalidEncoding);
            },
        };
        let generator = match encode_optional(&manifest.generator) {
            Ok(bytes) => bytes,
            Err(_) => {
                return Err(EncodeError::InvalidEncoding);
            },
        };
        let keywords = match encode_optional(&manifest.keywords) {
            Ok(bytes) => bytes,
            Err(_) => {
                return Err(EncodeError::InvalidEncoding);
            },
        };
        let version = match encode_optional(&manifest.version) {
            Ok(bytes) => bytes,
            Err(_) => {
                return Err(EncodeError::InvalidEncoding);
            },
        };
        let revision: u32 = manifest.revision;
        let animations = match DotLottieManifestAnimationArray::new(manifest.animations) {
            Ok(array) => array,
            Err(_) => {
                return Err(EncodeError::InvalidEncoding);
            },
        };
        let themes = match DotLottieManifestThemeArray::new(manifest.themes) {
            Ok(array) => array,
            Err(_) => {
                return Err(EncodeError::InvalidEncoding);
            },
        };
        let states = match DotLottieMuti8Array::new(manifest.states) {
            Ok(array) => array,
            Err(_) => {
                return Err(EncodeError::InvalidEncoding);
            },
        };
        Ok(
            DotLottieManifest {
                active_animation_id,
                animations,
                author,
                description,
                generator,
                keywords,
                revision,
                themes,
                states,
                version,
            },
        )
    }
}

} // verus!
