//! Options for compression.
use vstd::prelude::*;
use crate::options::OptionsValidateErrorReason;
use crate::text::{decimal, decimal_is_digits, decimal_is_injective, decimal_of};

verus! {

/// A supported compression algorithm for minecraft region files.
#[derive(Copy, Clone, Debug, PartialEq, Eq, Structural)]
#[non_exhaustive]
pub enum CompressionAlgorithm {
    /// Use [zlib](https://en.wikipedia.org/wiki/Zlib) compression.
    ///
    /// This is the default behavior for minecraft.
    Zlib,
    /// Use [gzip](https://en.wikipedia.org/wiki/Gzip#File_format) for compression.
    Gzip,
    /// Do not use any compression algorithm.
    Uncompressed,
    /// Use the [lz4](https://lz4.org/) compression format.
    ///
    /// The data of a chunk becomes a row of `LZ4Block` frames, as Minecraft has it.
    Lz4,
}

impl Default for CompressionAlgorithm {
    fn default() -> (r: Self)
        ensures
            r == CompressionAlgorithm::Zlib,
    {
        CompressionAlgorithm::Zlib
    }
}

/// How a stored chunk says that it is compressed.
#[derive(Copy, Clone, Debug, PartialEq, Eq, Structural)]
pub enum CompressionScheme {
    Gzip,
    Zlib,
    Uncompressed,
    Lz4,
}

impl CompressionScheme {
    /// The byte that stands for this scheme in a region file.
    pub open spec fn code(self) -> u8 {
        match self {
            CompressionScheme::Gzip => 1,
            CompressionScheme::Zlib => 2,
            CompressionScheme::Uncompressed => 3,
            CompressionScheme::Lz4 => 4,
        }
    }
}

impl CompressionAlgorithm {
    /// The name of this algorithm, as text.
    pub open spec fn spec_name(self) -> Seq<char> {
        match self {
            CompressionAlgorithm::Zlib => "zlib"@,
            CompressionAlgorithm::Gzip => "gzip"@,
            CompressionAlgorithm::Uncompressed => "none"@,
            CompressionAlgorithm::Lz4 => "lz4"@,
        }
    }

    /// The scheme under which the output of this algorithm is stored.
    pub open spec fn scheme(self) -> CompressionScheme {
        match self {
            CompressionAlgorithm::Zlib => CompressionScheme::Zlib,
            CompressionAlgorithm::Gzip => CompressionScheme::Gzip,
            CompressionAlgorithm::Uncompressed => CompressionScheme::Uncompressed,
            CompressionAlgorithm::Lz4 => CompressionScheme::Lz4,
        }
    }

    /// The name of this compression algorithm.
    pub fn name(&self) -> (r: &'static str)
        ensures
            r@ == self.spec_name(),
    {
        match self {
            CompressionAlgorithm::Zlib => "zlib",
            CompressionAlgorithm::Gzip => "gzip",
            CompressionAlgorithm::Uncompressed => "none",
            CompressionAlgorithm::Lz4 => "lz4",
        }
    }

    /// The scheme under which a region file stores what this algorithm puts out.
    pub fn fastanvil_scheme(self) -> (r: CompressionScheme)
        ensures
            r == self.scheme(),
    {
        match self {
            CompressionAlgorithm::Zlib => CompressionScheme::Zlib,
            CompressionAlgorithm::Gzip => CompressionScheme::Gzip,
            CompressionAlgorithm::Uncompressed => CompressionScheme::Uncompressed,
            CompressionAlgorithm::Lz4 => CompressionScheme::Lz4,
        }
    }
}

/// Controls the speed and quality of compression.
///
/// Using a level that an algorithm doesn't support
/// will trigger an [`OptionsValidateErrorReason::InappropriateCompressionLevel`].
#[derive(Copy, Clone, Debug, PartialEq, Eq, Structural)]
#[non_exhaustive]
pub enum CompressionLevel {
    /// Use the default compression level for the algorithm.
    ///
    /// This is the only compression level that is valid for [`CompressionAlgorithm::Uncompressed`].
    Default,
    /// Use the best standard compression level for the algorithm.
    ///
    /// This excludes the extra high levels that zstd/lz4 offers.
    Best,
    /// Use the fastest standard compression level for the algorithm.
    ///
    /// Should not include extra fast levels ([`Self::ExtraFast`]),
    /// so the zstd and lz4 `--fast` options should not be used.
    Fast,
    /// Use a specific integer compression level.
    Standard(u32),
    /// Use alternate faster compression with a specific level.
    ///
    /// Currently only applicable to lz4 compression.
    ExtraFast(u32),
}

impl Default for CompressionLevel {
    fn default() -> (r: Self)
        ensures
            r == CompressionLevel::Default,
    {
        CompressionLevel::Default
    }
}

impl CompressionLevel {
    /// Whether an algorithm knows this kind of level at all.
    pub open spec fn applicable(self, algorithm: CompressionAlgorithm) -> bool {
        ||| self is Default
        ||| algorithm is Lz4
        ||| algorithm !is Uncompressed && self !is ExtraFast
    }

    /// The integer that the level carries.
    pub open spec fn number(self) -> Option<u32> {
        match self {
            CompressionLevel::Standard(value) => Some(value),
            CompressionLevel::ExtraFast(value) => Some(value),
            _ => None,
        }
    }

    /// The integer that the level carries, if any, is at most `i32::MAX`.
    pub open spec fn fits_i32(self) -> bool {
        self.number() matches Some(value) ==> value <= i32::MAX
    }

    /// The level in the style of a command line option.
    pub open spec fn option_text(self) -> Seq<char> {
        match self {
            CompressionLevel::Default => "default"@,
            CompressionLevel::Best => "--best"@,
            CompressionLevel::Fast => "--fast"@,
            CompressionLevel::Standard(x) => "-"@ + decimal_of(x as nat),
            CompressionLevel::ExtraFast(x) => "--fast="@ + decimal_of(x as nat),
        }
    }

    /// Whether the algorithm accepts this kind of level.
    pub fn is_applicable_for(&self, algorithm: CompressionAlgorithm) -> (r: bool)
        ensures
            r == self.applicable(algorithm),
    {
        match (self, algorithm) {
            // a "default" level is always valid
            (CompressionLevel::Default, _) => true,
            // the "none" algorithm cannot accept non-default compression levels
            (_, CompressionAlgorithm::Uncompressed) => false,
            // only lz4 accepts extra fast levels
            (CompressionLevel::ExtraFast(_), CompressionAlgorithm::Lz4) => true,
            (CompressionLevel::ExtraFast(_), _) => false,
            // all non-none algorithms accept "best", "fast", and explicit levels
            (_, _) => true,
        }
    }

    /// The integer that the level carries, if it carries one.
    pub fn int_value(&self) -> (r: Option<u32>)
        ensures
            r == self.number(),
    {
        match *self {
            CompressionLevel::Default | CompressionLevel::Best | CompressionLevel::Fast => None,
            CompressionLevel::Standard(value) | CompressionLevel::ExtraFast(value) => Some(value),
        }
    }

    /// Check that the level can be used with an algorithm.
    ///
    /// The level must be of a kind that the algorithm accepts,
    /// and an integer level must always fit in an `i32`.
    pub fn validate(&self, algorithm: CompressionAlgorithm) -> (r: Result<
        (),
        OptionsValidateErrorReason,
    >)
        ensures
            r is Ok <==> self.applicable(algorithm) && self.fits_i32(),
            r matches Err(reason) ==> reason.explains(*self, algorithm),
    {
        if !self.is_applicable_for(algorithm) {
            return Err(
                OptionsValidateErrorReason::InappropriateCompressionLevel {
                    algorithm,
                    level: *self,
                },
            );
        }
        if let Some(int_value) = self.int_value() {
            // ensure the integer values always fit in an i32
            if int_value > i32::MAX as u32 {
                return Err(
                    OptionsValidateErrorReason::OverflowCompressionLevel {
                        target_type: "i32",
                        level: *self,
                    },
                );
            }
        }
        Ok(())
    }

    /// Print the level in the style of a command line option
    /// (ex. `--best`, `--fast=3`, `-9`).
    ///
    /// The exception is the "default" level which prints as "default".
    pub fn to_text(&self) -> (r: String)
        ensures
            r@ == self.option_text(),
    {
        match self {
            CompressionLevel::Default => "default".to_owned(),
            CompressionLevel::Best => "--best".to_owned(),
            CompressionLevel::Fast => "--fast".to_owned(),
            CompressionLevel::Standard(x) => {
                let mut text = "-".to_owned();
                text.append(decimal(*x as u64).as_str());
                text
            },
            CompressionLevel::ExtraFast(x) => {
                let mut text = "--fast=".to_owned();
                text.append(decimal(*x as u64).as_str());
                text
            },
        }
    }
}

/// The default level is valid for every algorithm, and where nothing is compressed,
/// no other level is.
pub proof fn default_level_suits_every_algorithm(
    level: CompressionLevel,
    algorithm: CompressionAlgorithm,
)
    ensures
        CompressionLevel::Default.applicable(algorithm) && CompressionLevel::Default.fits_i32(),
        level.applicable(CompressionAlgorithm::Uncompressed) <==> level is Default,
{
}

/// Extra fast levels are for lz4 only.
pub proof fn extra_fast_levels_are_for_lz4(value: u32, algorithm: CompressionAlgorithm)
    ensures
        CompressionLevel::ExtraFast(value).applicable(algorithm) <==> algorithm is Lz4,
{
}

/// A level passes if and only if the algorithm has such a level and an integer fits into 32 bits
/// with a sign. Where nothing is compressed there is the default level only, and only lz4 has
/// extra fast levels.
pub proof fn levels_suit_the_algorithm(
    level: CompressionLevel,
    algorithm: CompressionAlgorithm,
    r: Result<(), OptionsValidateErrorReason>,
)
    requires
        call_ensures(CompressionLevel::validate, (&level, algorithm), r),
    ensures
        r is Ok <==> match level {
            CompressionLevel::Default => true,
            CompressionLevel::Best | CompressionLevel::Fast => algorithm !is Uncompressed,
            CompressionLevel::Standard(n) => algorithm !is Uncompressed && n <= 2_147_483_647,
            CompressionLevel::ExtraFast(n) => algorithm is Lz4 && n <= 2_147_483_647,
        },
        r matches Err(OptionsValidateErrorReason::InappropriateCompressionLevel {
            level: reported,
            algorithm: named,
        }) ==> reported == level && named == algorithm,
        r matches Err(OptionsValidateErrorReason::OverflowCompressionLevel {
            level: reported,
            target_type,
        }) ==> reported == level && target_type@ == "i32"@ && (algorithm is Lz4 || algorithm
            !is Uncompressed && level !is ExtraFast),
{
}

/// Every algorithm has a byte of its own in a region file, as the anvil format has them.
pub proof fn algorithms_have_schemes(algorithm: CompressionAlgorithm, r: CompressionScheme)
    requires
        call_ensures(CompressionAlgorithm::fastanvil_scheme, (algorithm,), r),
    ensures
        algorithm is Gzip <==> r.code() == 1,
        algorithm is Zlib <==> r.code() == 2,
        algorithm is Uncompressed <==> r.code() == 3,
        algorithm is Lz4 <==> r.code() == 4,
{
}

/// Different algorithms have different names.
pub proof fn algorithms_are_told_apart(a: CompressionAlgorithm, b: CompressionAlgorithm)
    requires
        a != b,
    ensures
        a.spec_name() != b.spec_name(),
{
    reveal_strlit("zlib");
    reveal_strlit("gzip");
    reveal_strlit("none");
    reveal_strlit("lz4");
    assert(a.spec_name()[0] != b.spec_name()[0] || a.spec_name().len() != b.spec_name().len()
        || a.spec_name()[1] != b.spec_name()[1]);
}

/// Different levels are shown differently.
pub proof fn levels_are_told_apart(
    a: CompressionLevel,
    b: CompressionLevel,
    a_text: String,
    b_text: String,
)
    requires
        call_ensures(CompressionLevel::to_text, (&a,), a_text),
        call_ensures(CompressionLevel::to_text, (&b,), b_text),
        a != b,
    ensures
        a_text@ != b_text@,
{
    reveal_strlit("default");
    reveal_strlit("--best");
    reveal_strlit("--fast");
    reveal_strlit("-");
    reveal_strlit("--fast=");
    if a_text@ == b_text@ {
        let n = a.number();
        let m = b.number();
        if n is Some {
            decimal_is_digits(n->0 as nat);
        }
        if m is Some {
            decimal_is_digits(m->0 as nat);
        }
        let s = a_text@;
        let t = b_text@;
        assert(s[0] == t[0] && s[1] == t[1] && s.len() == t.len());
        assert(s.len() > 2 ==> s[2] == t[2]);
        if n is Some && m is Some {
            let skipped = if a is Standard {
                1
            } else {
                7
            };
            assert(s.skip(skipped) =~= decimal_of(n->0 as nat));
            assert(t.skip(skipped) =~= decimal_of(m->0 as nat));
            decimal_is_injective(n->0 as nat, m->0 as nat);
        }
    }
}

} // verus!
