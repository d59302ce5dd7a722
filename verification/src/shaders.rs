//! Shader negotiation: which pair of shader sources a graphics context gets.
//!
//! The sources come in tiers, each bound to the versions it is selected for.
//! The newest tier is taken only by the one version it was written for; every
//! other version that reaches the middle tier's threshold gets the middle
//! tier, however new the driver is; all the rest falls back to the oldest.

use vstd::prelude::*;

verus! {

/// A graphics API family.
#[derive(Clone, Copy, Debug, PartialEq, Eq, Structural)]
pub enum Api {
    /// Regular OpenGL.
    Gl,
    /// OpenGL for embedded systems.
    GlEs,
}

/// An API version: family, major, minor.
///
/// Two versions can be ordered only within one family.
#[derive(Clone, Copy, Debug, PartialEq, Eq, Structural)]
pub struct Version(pub Api, pub u8, pub u8);

/// The one version that gets the newest tier.
#[verifier::allow_in_spec]
pub fn newest_target() -> Version
    returns
        Version(Api::Gl, 4, 6),
{
    Version(Api::Gl, 4, 6)
}

/// The oldest version that gets the middle tier.
#[verifier::allow_in_spec]
pub fn middle_threshold() -> Version
    returns
        Version(Api::Gl, 1, 4),
{
    Version(Api::Gl, 1, 4)
}

impl Version {
    /// `self` is `other` or a later version of the same family.
    pub open spec fn at_least(self, other: Version) -> bool {
        self.0 == other.0 && (self.1 > other.1 || (self.1 == other.1 && self.2 >= other.2))
    }

    /// Decides `at_least`.
    pub fn is_at_least(&self, other: &Version) -> (r: bool)
        ensures
            r == self.at_least(*other),
    {
        self.0 == other.0 && (self.1 > other.1 || (self.1 == other.1 && self.2 >= other.2))
    }
}

/// A variant of the shader sources.
#[derive(Clone, Copy, Debug, PartialEq, Eq, Structural)]
pub enum ShaderTier {
    /// `#version 100`: low precision, legacy sampler call.
    Glsl100,
    /// `#version 140`: `in`/`out` qualifiers, modern sampler call.
    Glsl140,
    /// `#version 460`: explicit precision qualifiers.
    Glsl460,
}

pub const VERTEX_100: &'static str = "\n\
\t\t#version 100\n\
\t\tattribute lowp vec2 position;\n\
\t\tattribute lowp vec2 tex_coords;\n\
\t\tvarying lowp vec2 v_tex_coords;\n\
\t\tuniform lowp mat4 matrix;\n\
\t\tvoid main() {\n\
\t\t\tv_tex_coords = tex_coords;\n\
\t\t\tgl_Position = matrix * vec4(position, 0.0, 1.0);\n\
\t\t}\n\
\t\t";

pub const FRAGMENT_100: &'static str = "\n\
\t\t#version 100\n\
\t\tvarying lowp vec2 v_tex_coords;\n\
\t\tuniform lowp sampler2D tex;\n\
\t\tvoid main() {\n\
\t\t\tgl_FragColor = texture2D(tex, v_tex_coords);\n\
\t\t}\n\
\t\t";

pub const VERTEX_140: &'static str = "\n\
\t\t#version 140\n\
\t\tin vec2 position;\n\
\t\tin vec2 tex_coords;\n\
\t\tout vec2 v_tex_coords;\n\
\t\tuniform mat4 matrix;\n\
\t\tvoid main() {\n\
\t\t\tv_tex_coords = tex_coords;\n\
\t\t\tgl_Position = matrix * vec4(position, 0.0, 1.0);\n\
\t\t}\n\
\t\t";

pub const FRAGMENT_140: &'static str = "\n\
\t\t#version 140\n\
\t\tin vec2 v_tex_coords;\n\
\t\tout vec4 color;\n\
\t\tuniform sampler2D tex;\n\
\t\tvoid main() {\n\
\t\t\tcolor = texture(tex, v_tex_coords);\n\
\t\t}\n\
\t\t";

pub const VERTEX_460: &'static str = "\n\
\t\t#version 460\n\
\t\tprecision highp float;\n\
\n\
\t\tin vec2 position;\n\
\t\tin vec2 tex_coords;\n\
\n\
\t\tout vec2 v_tex_coords;\n\
\n\
\t\tuniform mat4 matrix;\n\
\n\
\t\tvoid main() {\n\
\t\t\tv_tex_coords = tex_coords;\n\
\t\t\tgl_Position = matrix * vec4(position, 0.0, 1.0);\n\
\t\t}\n\
\t\t";

pub const FRAGMENT_460: &'static str = "\n\
\t\t#version 460\n\
\t\tprecision highp float;\n\
\n\
\t\tin vec2 v_tex_coords;\n\
\n\
\t\tout vec4 color;\n\
\n\
\t\tuniform sampler2D tex;\n\
\t\t\n\
\t\tvoid main() {\n\
\t\t\tcolor = texture(tex, v_tex_coords);\n\
\t\t}\n\
\t\t";

impl ShaderTier {
    /// The tier's place from oldest (0) to newest (2).
    pub open spec fn age_rank(self) -> nat {
        match self {
            ShaderTier::Glsl100 => 0,
            ShaderTier::Glsl140 => 1,
            ShaderTier::Glsl460 => 2,
        }
    }

    /// The versions that a tier is written for.
    pub open spec fn admits(self, version: Version) -> bool {
        match self {
            ShaderTier::Glsl460 => version == newest_target(),
            ShaderTier::Glsl140 => version.at_least(middle_threshold()),
            ShaderTier::Glsl100 => true,
        }
    }

    /// The tier that a version gets.
    pub open spec fn select(version: Version) -> ShaderTier {
        if version == newest_target() {
            ShaderTier::Glsl460
        } else if version.at_least(middle_threshold()) {
            ShaderTier::Glsl140
        } else {
            ShaderTier::Glsl100
        }
    }

    /// The text of the tier's vertex shader.
    pub open spec fn vertex_text(self) -> Seq<char> {
        match self {
            ShaderTier::Glsl100 => VERTEX_100@,
            ShaderTier::Glsl140 => VERTEX_140@,
            ShaderTier::Glsl460 => VERTEX_460@,
        }
    }

    /// The text of the tier's fragment shader.
    pub open spec fn fragment_text(self) -> Seq<char> {
        match self {
            ShaderTier::Glsl100 => FRAGMENT_100@,
            ShaderTier::Glsl140 => FRAGMENT_140@,
            ShaderTier::Glsl460 => FRAGMENT_460@,
        }
    }

    /// Decides `admits`.
    pub fn is_for(self, version: &Version) -> (r: bool)
        ensures
            r == self.admits(*version),
    {
        match self {
            ShaderTier::Glsl460 => *version == newest_target(),
            ShaderTier::Glsl140 => version.is_at_least(&middle_threshold()),
            ShaderTier::Glsl100 => true,
        }
    }

    /// The tier's vertex shader.
    pub fn vertex_source(self) -> (source: &'static str)
        ensures
            source@ == self.vertex_text(),
    {
        match self {
            ShaderTier::Glsl100 => VERTEX_100,
            ShaderTier::Glsl140 => VERTEX_140,
            ShaderTier::Glsl460 => VERTEX_460,
        }
    }

    /// The tier's fragment shader.
    pub fn fragment_source(self) -> (source: &'static str)
        ensures
            source@ == self.fragment_text(),
    {
        match self {
            ShaderTier::Glsl100 => FRAGMENT_100,
            ShaderTier::Glsl140 => FRAGMENT_140,
            ShaderTier::Glsl460 => FRAGMENT_460,
        }
    }
}

/// The tiers in the order in which they are tried: newest first, the
/// fallback last.
pub open spec fn preference() -> Seq<ShaderTier> {
    seq![ShaderTier::Glsl460, ShaderTier::Glsl140, ShaderTier::Glsl100]
}

/// The tier table, in order of preference.
pub fn tiers() -> (table: [ShaderTier; 3])
    ensures
        table@ == preference(),
{
    [ShaderTier::Glsl460, ShaderTier::Glsl140, ShaderTier::Glsl100]
}

/// Selects the first tier of the table that is written for `version`.
pub fn select_tier(version: &Version) -> (tier: ShaderTier)
    ensures
        tier == ShaderTier::select(*version),
{
    let table = tiers();
    let mut i: usize = 0;
    // The last tier is the fallback and needs no test.
    while i < 2
        invariant
            i <= 2,
            table@ == preference(),
            forall|j: int| 0 <= j < i ==> !(#[trigger] table@[j]).admits(*version),
        decreases 2 - i,
    {
        if table[i].is_for(version) {
            return table[i];
        }
        i += 1;
    }
    table[2]
}

/// The vertex and fragment shader sources for a context of the given version.
pub fn get_shader(version: &Version) -> (sources: (String, String))
    ensures
        sources.0@ == ShaderTier::select(*version).vertex_text(),
        sources.1@ == ShaderTier::select(*version).fragment_text(),
{
    let tier = select_tier(version);
    (tier.vertex_source().to_string(), tier.fragment_source().to_string())
}

/// Every version gets exactly one tier: the newest tier goes to its one
/// target, the middle tier to all else from its threshold on, and the oldest
/// tier to the rest.
pub proof fn lemma_select_is_total(version: Version)
    ensures
        ShaderTier::select(version) == ShaderTier::Glsl460 <==> version == newest_target(),
        ShaderTier::select(version) == ShaderTier::Glsl140 <==> version != newest_target()
            && version.at_least(middle_threshold()),
        ShaderTier::select(version) == ShaderTier::Glsl100 <==> !version.at_least(
            middle_threshold(),
        ),
{
}

/// The selected tier is written for the version, and no tier that the table
/// prefers to it is.
pub proof fn lemma_select_is_first_match(version: Version)
    ensures
        ShaderTier::select(version).admits(version),
        forall|i: int|
            0 <= i < preference().len() && (#[trigger] preference()[i]).age_rank()
                > ShaderTier::select(version).age_rank() ==> !preference()[i].admits(version),
{
}

/// A later version of the same family never gets an older tier, unless the
/// earlier one is the newest tier's own target: that tier is left again by
/// every version after it.
pub proof fn lemma_select_is_monotonic(earlier: Version, later: Version)
    requires
        later.at_least(earlier),
        earlier != newest_target() || later == earlier,
    ensures
        ShaderTier::select(earlier).age_rank() <= ShaderTier::select(later).age_rank(),
{
}

/// Every version after the newest tier's target falls back to the middle
/// tier.
pub proof fn lemma_newer_than_newest_gets_middle(version: Version)
    requires
        version.at_least(newest_target()),
        version != newest_target(),
    ensures
        ShaderTier::select(version) == ShaderTier::Glsl140,
{
}

/// Within one family the versions are ordered: `at_least` is reflexive,
/// antisymmetric and transitive, and any two versions compare one way or the
/// other. Versions of different families never compare.
pub proof fn lemma_versions_are_ordered(a: Version, b: Version, c: Version)
    ensures
        a.at_least(a),
        a.at_least(b) && b.at_least(a) ==> a == b,
        a.at_least(b) && b.at_least(c) ==> a.at_least(c),
        a.0 == b.0 ==> a.at_least(b) || b.at_least(a),
        a.0 != b.0 ==> !a.at_least(b) && !b.at_least(a),
{
}

} // verus!
