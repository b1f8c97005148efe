//! The flat configuration record and its mapping to the engine's configuration.
//!
//! The record has a fixed layout: enumerated fields travel as integer codes,
//! an optional pair of numbers marks "unset" with a bound below zero, and the
//! optional marker name is a native string or a null pointer.

use vstd::prelude::*;

use crate::codec::{
    decoded, encodable, encoded, is_native_string, to_mut_i8, to_string, EncodeError,
};
use crate::float32::{Float32, NEGATIVE_ONE_BITS};

verus! {

/// Direction of playback.
#[derive(Clone, Copy, Debug, PartialEq, Eq, Structural)]
pub enum Mode {
    Forward,
    Reverse,
    Bounce,
    ReverseBounce,
}

/// How the animation is fitted into its canvas.
#[derive(Clone, Copy, Debug, PartialEq, Eq, Structural)]
pub enum Fit {
    Contain,
    Fill,
    Cover,
    FitWidth,
    FitHeight,
    NoFit,
}

impl Mode {
    /// The integer code of this mode in the record.
    pub open spec fn spec_code(self) -> u32 {
        match self {
            Mode::Forward => 0u32,
            Mode::Reverse => 1u32,
            Mode::Bounce => 2u32,
            Mode::ReverseBounce => 3u32,
        }
    }

    /// The integer code of this mode in the record.
    #[verifier::when_used_as_spec(spec_code)]
    pub fn code(self) -> (code: u32)
        ensures
            code == self.spec_code(),
    {
        match self {
            Mode::Forward => 0,
            Mode::Reverse => 1,
            Mode::Bounce => 2,
            Mode::ReverseBounce => 3,
        }
    }

    /// The mode that a code stands for, if it is a known one.
    pub fn from_code(code: u32) -> (mode: Option<Mode>)
        ensures
            mode matches Some(m) ==> m.spec_code() == code,
            mode is Some <==> code <= 3,
    {
        match code {
            0 => Some(Mode::Forward),
            1 => Some(Mode::Reverse),
            2 => Some(Mode::Bounce),
            3 => Some(Mode::ReverseBounce),
            _ => None,
        }
    }
}

impl Fit {
    /// The integer code of this fit in the record.
    pub open spec fn spec_code(self) -> u32 {
        match self {
            Fit::Contain => 0u32,
            Fit::Fill => 1u32,
            Fit::Cover => 2u32,
            Fit::FitWidth => 3u32,
            Fit::FitHeight => 4u32,
            Fit::NoFit => 5u32,
        }
    }

    /// The integer code of this fit in the record.
    #[verifier::when_used_as_spec(spec_code)]
    pub fn code(self) -> (code: u32)
        ensures
            code == self.spec_code(),
    {
        match self {
            Fit::Contain => 0,
            Fit::Fill => 1,
            Fit::Cover => 2,
            Fit::FitWidth => 3,
            Fit::FitHeight => 4,
            Fit::NoFit => 5,
        }
    }

    /// The fit that a code stands for, if it is a known one.
    pub fn from_code(code: u32) -> (fit: Option<Fit>)
        ensures
            fit matches Some(f) ==> f.spec_code() == code,
            fit is Some <==> code <= 5,
    {
        match code {
            0 => Some(Fit::Contain),
            1 => Some(Fit::Fill),
            2 => Some(Fit::Cover),
            3 => Some(Fit::FitWidth),
            4 => Some(Fit::FitHeight),
            5 => Some(Fit::NoFit),
            _ => None,
        }
    }
}

/// Placement of the animation in its canvas, on the engine's side.
#[derive(Clone, Debug)]
pub struct Layout {
    pub fit: Fit,
    /// Empty, or the horizontal and the vertical alignment.
    pub align: Vec<Float32>,
}

/// The engine's configuration.
#[derive(Clone, Debug)]
pub struct Config {
    pub mode: Mode,
    pub loop_animation: bool,
    pub speed: Float32,
    pub use_frame_interpolation: bool,
    pub autoplay: bool,
    /// Empty, or the first and the last frame to play.
    pub segment: Vec<Float32>,
    pub background_color: u32,
    pub layout: Layout,
    /// Empty, or the name of the marker to play.
    pub marker: String,
}

/// Why a record could not be mapped.
#[derive(Clone, Copy, Debug, PartialEq, Eq, Structural)]
pub enum MappingError {
    /// The mode or the fit is not a code of a known variant.
    InvalidEnumValue,
}

/// Two numbers that are either both in force or, with one of them below
/// zero, unset.
#[derive(Clone, Copy, Debug, PartialEq, Eq, Structural)]
pub struct DotLottiePair {
    pub first: Float32,
    pub second: Float32,
}

impl DotLottiePair {
    /// The pair marks "no restriction": one of its numbers is below zero.
    pub open spec fn is_unset(self) -> bool {
        self.first.below_zero() || self.second.below_zero()
    }

    /// The one pair that stands for every unset pair: `-1.0` twice.
    pub open spec fn unset() -> DotLottiePair {
        DotLottiePair {
            first: Float32 { bits: NEGATIVE_ONE_BITS },
            second: Float32 { bits: NEGATIVE_ONE_BITS },
        }
    }

    /// The pair itself where it is set, the canonical unset pair otherwise.
    pub open spec fn canonical(self) -> DotLottiePair {
        if self.is_unset() {
            Self::unset()
        } else {
            self
        }
    }

    /// The numbers that the engine gets: none for an unset pair.
    pub open spec fn values(self) -> Seq<Float32> {
        if self.is_unset() {
            Seq::empty()
        } else {
            seq![self.first, self.second]
        }
    }

    /// The pair that stands for the engine's numbers: the two numbers where
    /// there are exactly two, the canonical unset pair otherwise.
    pub open spec fn of(values: Seq<Float32>) -> DotLottiePair {
        if values.len() == 2 {
            DotLottiePair { first: values[0], second: values[1] }
        } else {
            Self::unset()
        }
    }

    /// Whether the pair marks "no restriction".
    pub fn check_unset(self) -> (unset: bool)
        ensures
            unset == self.is_unset(),
    {
        self.first.is_below_zero() || self.second.is_below_zero()
    }

    /// The canonical unset pair.
    pub fn new_unset() -> (pair: DotLottiePair)
        ensures
            pair == Self::unset(),
            pair.is_unset(),
    {
        DotLottiePair { first: Float32::negative_one(), second: Float32::negative_one() }
    }

    /// The numbers that the engine gets.
    pub fn to_values(self) -> (values: Vec<Float32>)
        ensures
            values@ == self.values(),
    {
        let mut values: Vec<Float32> = Vec::new();
        if !self.check_unset() {
            values.push(self.first);
            values.push(self.second);
            assert(values@ =~= seq![self.first, self.second]);
        }
        values
    }

    /// The pair that stands for the engine's numbers.
    pub fn from_values(values: &Vec<Float32>) -> (pair: DotLottiePair)
        ensures
            pair == Self::of(values@),
    {
        if values.len() == 2 {
            DotLottiePair { first: values[0], second: values[1] }
        } else {
            Self::new_unset()
        }
    }
}

/// Placement of the animation in its canvas, in the record.
#[derive(Clone, Copy, Debug, PartialEq, Eq, Structural)]
pub struct DotLottieLayout {
    pub fit: u32,
    pub align: DotLottiePair,
}

/// The flat configuration record.
#[derive(Clone, Debug)]
pub struct DotLottieConfig {
    pub mode: u32,
    pub loop_animation: bool,
    pub speed: Float32,
    pub use_frame_interpolation: bool,
    pub autoplay: bool,
    pub segment: DotLottiePair,
    pub background_color: u32,
    pub layout: DotLottieLayout,
    /// The marker name as a native string; `None` is a null pointer.
    pub marker: Option<Vec<u8>>,
}

/// The text that a record's marker field gives the engine: the decoded name,
/// or nothing for a null pointer or bytes that are no native string.
pub open spec fn marker_text(marker: Option<Vec<u8>>) -> Seq<char> {
    match marker {
        Some(bytes) => if is_native_string(bytes@) {
            decoded(bytes@)
        } else {
            Seq::empty()
        },
        None => Seq::empty(),
    }
}

/// `marker` is the record form of the engine's marker name: a null pointer
/// for the empty name, its native string otherwise.
pub open spec fn marker_of(marker: Option<Vec<u8>>, name: Seq<char>) -> bool {
    if name.len() == 0 {
        marker is None
    } else {
        marker matches Some(bytes) && bytes@ == encoded(name)
    }
}

impl DotLottieConfig {
    /// Both enumerated fields hold the code of a known variant.
    pub open spec fn has_known_enums(self) -> bool {
        self.mode <= 3 && self.layout.fit <= 5
    }

    /// The record is valid: its enumerated fields are known and its marker is
    /// a null pointer or a native string.
    pub open spec fn is_valid(self) -> bool {
        &&& self.has_known_enums()
        &&& self.marker matches Some(bytes) ==> is_native_string(bytes@)
    }

    /// `config` is what this record means to the engine.
    pub open spec fn maps_to(self, config: Config) -> bool {
        &&& config.mode.spec_code() == self.mode
        &&& config.loop_animation == self.loop_animation
        &&& config.speed == self.speed
        &&& config.use_frame_interpolation == self.use_frame_interpolation
        &&& config.autoplay == self.autoplay
        &&& config.segment@ == self.segment.values()
        &&& config.background_color == self.background_color
        &&& config.layout.fit.spec_code() == self.layout.fit
        &&& config.layout.align@ == self.layout.align.values()
        &&& config.marker@ == marker_text(self.marker)
    }

    /// This record is the flat form of `config`.
    pub open spec fn carries(self, config: Config) -> bool {
        &&& self.mode == config.mode.spec_code()
        &&& self.loop_animation == config.loop_animation
        &&& self.speed == config.speed
        &&& self.use_frame_interpolation == config.use_frame_interpolation
        &&& self.autoplay == config.autoplay
        &&& self.segment == DotLottiePair::of(config.segment@)
        &&& self.background_color == config.background_color
        &&& self.layout.fit == config.layout.fit.spec_code()
        &&& self.layout.align == DotLottiePair::of(config.layout.align@)
        &&& marker_of(self.marker, config.marker@)
    }

    /// Maps the record to the engine's configuration.
    ///
    /// Fails on an unknown mode or fit. A marker that cannot be decoded
    /// counts as no marker.
    pub fn to_config(&self) -> (result: Result<Config, MappingError>)
        ensures
            self.has_known_enums() ==> (result matches Ok(config) && self.maps_to(config)),
            !self.has_known_enums() ==> (result matches Err(e) && e
                == MappingError::InvalidEnumValue),
    {
        let mode = match Mode::from_code(self.mode) {
            Some(mode) => mode,
            None => {
                return Err(MappingError::InvalidEnumValue);
            },
        };
        let fit = match Fit::from_code(self.layout.fit) {
            Some(fit) => fit,
            None => {
                return Err(MappingError::InvalidEnumValue);
            },
        };
        let mut config = Config {
            mode,
            loop_animation: self.loop_animation,
            speed: self.speed,
            use_frame_interpolation: self.use_frame_interpolation,
            autoplay: self.autoplay,
            segment: self.segment.to_values(),
            background_color: self.background_color,
            layout: Layout { fit, align: self.layout.align.to_values() },
            marker: String::new(),
        };
        let decoded = match &self.marker {
            Some(bytes) => to_string(Some(bytes.as_slice())),
            None => to_string(None),
        };
        if let Ok(marker) = decoded {
            config.marker = marker;
        }
        Ok(config)
    }

    /// Builds the flat form of the engine's configuration. The marker name,
    /// where there is one, is encoded into a native string that the caller
    /// owns.
    pub fn new(config: &Config) -> (result: Result<DotLottieConfig, EncodeError>)
        ensures
            encodable(config.marker@) ==> (result matches Ok(record) && record.carries(*config)),
            !encodable(config.marker@) ==> (result matches Err(e) && e
                == EncodeError::InvalidEncoding),
    {
        let marker = if config.marker.as_str().is_empty() {
            proof {
                assert(vstd::utf8::encode_utf8(config.marker@) =~= Seq::<u8>::empty());
            }
            None
        } else {
            match to_mut_i8(config.marker.as_str()) {
                Ok(bytes) => Some(bytes),
                Err(_) => {
                    return Err(EncodeError::InvalidEncoding);
                },
            }
        };
        Ok(
            DotLottieConfig {
                mode: config.mode.code(),
                loop_animation: config.loop_animation,
                speed: config.speed,
                use_frame_interpolation: config.use_frame_interpolation,
                autoplay: config.autoplay,
                segment: DotLottiePair::from_values(&config.segment),
                background_color: config.background_color,
                layout: DotLottieLayout {
                    fit: config.layout.fit.code(),
                    align: DotLottiePair::from_values(&config.layout.align),
                },
                marker,
            },
        )
    }
}

/// Mapping a valid record to the engine's configuration and back reproduces
/// it field for field, but for two canonical forms: an unset pair comes back
/// as `-1.0` twice, and a marker that names nothing comes back as a null
/// pointer.
pub proof fn lemma_config_round_trip(record: DotLottieConfig, config: Config, back: DotLottieConfig)
    requires
        record.is_valid(),
        record.maps_to(config),
        back.carries(config),
    ensures
        encodable(config.marker@),
        back.mode == record.mode,
        back.loop_animation == record.loop_animation,
        back.speed == record.speed,
        back.use_frame_interpolation == record.use_frame_interpolation,
        back.autoplay == record.autoplay,
        back.segment == record.segment.canonical(),
        back.background_color == record.background_color,
        back.layout.fit == record.layout.fit,
        back.layout.align == record.layout.align.canonical(),
        match record.marker {
            Some(bytes) => if bytes@.len() == 1 {
                back.marker is None
            } else {
                back.marker matches Some(again) && again@ == bytes@
            },
            None => back.marker is None,
        },
{
    lemma_pair_round_trip(record.segment);
    lemma_pair_round_trip(record.layout.align);
    match record.marker {
        Some(bytes) => {
            crate::codec::lemma_decode_then_encode(bytes@);
            if bytes@.len() == 1 {
                assert(crate::codec::content(bytes@) =~= Seq::<u8>::empty());
                assert(decoded(bytes@) =~= Seq::<char>::empty());
            } else {
                assert(encoded(decoded(bytes@)).len() > 1);
                if decoded(bytes@).len() == 0 {
                    assert(vstd::utf8::encode_utf8(decoded(bytes@)) =~= Seq::<u8>::empty());
                }
            }
        },
        None => {
            assert(vstd::utf8::encode_utf8(config.marker@) =~= Seq::<u8>::empty());
        },
    }
}

/// A pair survives the trip through the engine's numbers up to its canonical
/// form.
pub proof fn lemma_pair_round_trip(pair: DotLottiePair)
    ensures
        DotLottiePair::of(pair.values()) == pair.canonical(),
        pair.canonical().is_unset() == pair.is_unset(),
        pair.canonical().canonical() == pair.canonical(),
{
    let minus_one = Float32 { bits: NEGATIVE_ONE_BITS };
    assert(minus_one.below_zero()) by {
        assert((0xBF80_0000u32 >> 31) == 1 && ((0xBF80_0000u32 >> 23) & 0xFF) == 0x7F && (
        0xBF80_0000u32 & 0x7F_FFFF) == 0) by (bit_vector);
    }
}

} // verus!
