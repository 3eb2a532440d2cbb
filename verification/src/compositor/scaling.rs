//! How a window that is not the size of the output is scaled.
use vstd::prelude::*;

use crate::text;

verus! {

/// Scaling mode, as Steam publishes it in `GAMESCOPE_UPSCALE_SCALER`.
#[derive(Clone, Copy, Debug, PartialEq, Eq, Structural)]
pub enum UpscaleScaler {
    /// Fit the source into the output, up to the largest window scale.
    Auto,
    /// Fit by a whole factor, only when scaling up.
    Integer,
    /// Fit (letterbox) by one ratio.
    Fit,
    /// Fill (crop) by one ratio.
    Fill,
    /// Stretch to the output.
    Stretch,
}

impl Default for UpscaleScaler {
    fn default() -> (r: Self)
        ensures
            r == UpscaleScaler::Auto,
    {
        UpscaleScaler::Auto
    }
}

/// The scaling mode of an atom value.
pub open spec fn atom_scaler(value: int) -> UpscaleScaler {
    if value == 1 {
        UpscaleScaler::Integer
    } else if value == 2 {
        UpscaleScaler::Fit
    } else if value == 3 {
        UpscaleScaler::Fill
    } else if value == 4 {
        UpscaleScaler::Stretch
    } else {
        UpscaleScaler::Auto
    }
}

/// The scaling mode that a setting names: by its name or by its atom value,
/// with white space around it ignored; otherwise automatic.
pub open spec fn named_scaler(setting: Seq<char>) -> UpscaleScaler {
    let name = text::trimmed(setting);
    if name == "integer"@ {
        UpscaleScaler::Integer
    } else if name == "fit"@ {
        UpscaleScaler::Fit
    } else if name == "fill"@ {
        UpscaleScaler::Fill
    } else if name == "stretch"@ {
        UpscaleScaler::Stretch
    } else {
        match text::read_unsigned(name, u32::MAX as int) {
            Ok(value) => atom_scaler(value),
            Err(_) => UpscaleScaler::Auto,
        }
    }
}

impl UpscaleScaler {
    /// The scaling mode of the setting `MOONSHINE_UPSCALE_SCALER`, given its
    /// value where it is set; see [`named_scaler`].
    pub fn from_env(setting: Option<&str>) -> (r: Self)
        ensures
            r == match setting {
                Some(value) => named_scaler(value@),
                None => UpscaleScaler::Auto,
            },
    {
        let value = match setting {
            Some(value) => value,
            None => return UpscaleScaler::Auto,
        };
        let chars = text::chars_of(value);
        let name = text::trim(&chars);
        if text::is_word(&name, "integer") {
            UpscaleScaler::Integer
        } else if text::is_word(&name, "fit") {
            UpscaleScaler::Fit
        } else if text::is_word(&name, "fill") {
            UpscaleScaler::Fill
        } else if text::is_word(&name, "stretch") {
            UpscaleScaler::Stretch
        } else {
            match text::parse_unsigned(&name, u32::MAX as u64) {
                Ok(value) => Self::from_atom_value(value as u32),
                Err(_) => UpscaleScaler::Auto,
            }
        }
    }

    /// The scaling mode of a `GAMESCOPE_UPSCALE_SCALER` value.
    pub fn from_atom_value(value: u32) -> (r: Self)
        ensures
            r == atom_scaler(value as int),
    {
        match value {
            1 => UpscaleScaler::Integer,
            2 => UpscaleScaler::Fit,
            3 => UpscaleScaler::Fill,
            4 => UpscaleScaler::Stretch,
            _ => UpscaleScaler::Auto,
        }
    }
}

/// How a texture is sampled.
#[derive(Clone, Copy, Debug, PartialEq, Eq, Structural)]
pub enum TextureFilter {
    Linear,
    Nearest,
}

/// The texture filter of a `GAMESCOPE_SCALING_FILTER` value: nearest for 1
/// and 4, linear for all others.
pub fn filter_from_atom_value(value: u32) -> (r: TextureFilter)
    ensures
        r == if value == 1 || value == 4 {
            TextureFilter::Nearest
        } else {
            TextureFilter::Linear
        },
{
    if value == 1 || value == 4 {
        TextureFilter::Nearest
    } else {
        TextureFilter::Linear
    }
}

/// A scaling mode is known by its name, with or without white space around it,
/// and by its number; anything else is automatic.
pub proof fn scalers_are_known_by_name_and_number(setting: Seq<char>, n: u32)
    ensures
        text::trimmed(setting) == "integer"@ ==> named_scaler(setting) is Integer,
        text::trimmed(setting) == "fit"@ ==> named_scaler(setting) is Fit,
        text::trimmed(setting) == "fill"@ ==> named_scaler(setting) is Fill,
        text::trimmed(setting) == "stretch"@ ==> named_scaler(setting) is Stretch,
        text::trimmed(setting) == text::decimal(n as nat) ==> named_scaler(setting) == atom_scaler(n as int),
        atom_scaler(1) is Integer && atom_scaler(2) is Fit && atom_scaler(3) is Fill && atom_scaler(4)
            is Stretch,
        n == 0 || n > 4 ==> atom_scaler(n as int) is Auto,
{
    reveal_strlit("integer");
    reveal_strlit("fit");
    reveal_strlit("fill");
    reveal_strlit("stretch");
    let name = text::trimmed(setting);
    assert("integer"@[0] == 'i' && "fit"@[0] == 'f' && "fill"@[0] == 'f' && "stretch"@[0] == 's');
    assert("fit"@.len() == 3 && "fill"@.len() == 4);
    text::decimal_reads_back(n as nat, u32::MAX as int);
    assert(text::is_digit(text::decimal(n as nat)[0]));
}

} // verus!
