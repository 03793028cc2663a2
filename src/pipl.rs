//! PiPL descriptors: the property list a host reads before it loads a
//! plug-in, checked for completeness and written in the host's binary layout
//! (big-endian, each property padded to four bytes).
use vstd::prelude::*;
use vstd::string::StringSliceAdditionalSpecFns;

verus! {

/// The kind of plug-in a descriptor declares.
#[derive(Clone, Copy, Debug, PartialEq, Eq, Structural)]
pub enum PluginKind {
    General,
    Filter,
    AEEffect,
    AEGeneral,
    SweetPea,
    AIGeneral,
}

/// The four-character code of a plug-in kind.
pub open spec fn kind_code(k: PluginKind) -> &'static str {
    match k {
        PluginKind::General => "8BPI",
        PluginKind::Filter => "8BFM",
        PluginKind::AEEffect => "eFKT",
        PluginKind::AEGeneral => "AEgp",
        PluginKind::SweetPea => "SPEA",
        PluginKind::AIGeneral => "ARPI",
    }
}

/// The development stage of an effect version.
#[derive(Clone, Copy, Debug, PartialEq, Eq, Structural)]
pub enum Stage {
    Develop,
    Alpha,
    Beta,
    Release,
    /// Not representable in the host's two-bit stage field.
    Final,
}

/// The code of a stage in the host's version word.
pub open spec fn stage_code(s: Stage) -> u32 {
    match s {
        Stage::Develop => 0,
        Stage::Alpha => 1,
        Stage::Beta => 2,
        Stage::Release => 3,
        Stage::Final => 4,
    }
}

/// A set of effect out-flags, as a bitmask.
#[derive(Clone, Copy, Debug, PartialEq, Eq, Structural)]
pub struct OutFlags {
    pub bits: u32,
}

/// A set of effect out-flags of the second word, as a bitmask.
#[derive(Clone, Copy, Debug, PartialEq, Eq, Structural)]
pub struct OutFlags2 {
    pub bits: u32,
}

/// Out-flag bit: the effect expands its output buffer.
pub const I_EXPAND_BUFFER: u32 = 0x200;

/// The effect depends on external files.
pub const I_HAVE_EXTERNAL_DEPENDENCIES: u32 = 0x100_0000;

/// The effect handles deep color.
pub const DEEP_COLOR_AWARE: u32 = 0x200_0000;

/// The effect answers dynamic-flag queries.
pub const SUPPORTS_QUERY_DYNAMIC_FLAGS: u32 = 0x1;

/// The effect reads 3D cameras.
pub const I_USE_3D_CAMERA: u32 = 0x2;

/// The effect reads 3D lights.
pub const I_USE_3D_LIGHTS: u32 = 0x4;

/// The effect renders through smart render.
pub const SUPPORTS_SMART_RENDER: u32 = 0x400;

/// The effect supports flattened sequence data.
pub const SUPPORTS_GET_FLATTENED_SEQUENCE_DATA: u32 = 0x80_0000;

/// The effect renders on several threads.
pub const SUPPORTS_THREADED_RENDERING: u32 = 0x800_0000;

impl OutFlags {
    /// The flags of either set.
    pub fn union(self, other: OutFlags) -> (r: OutFlags)
        ensures
            r.bits == self.bits | other.bits,
    {
        OutFlags { bits: self.bits | other.bits }
    }
}

impl OutFlags2 {
    /// The flags of either set.
    pub fn union(self, other: OutFlags2) -> (r: OutFlags2)
        ensures
            r.bits == self.bits | other.bits,
    {
        OutFlags2 { bits: self.bits | other.bits }
    }
}

/// The host's packed version word: version (seven bits, split), subversion,
/// bug-fix version, stage and build.
pub open spec fn version_word(version: u32, subversion: u32, bugversion: u32, stage: u32, build: u32) -> u32 {
    (((version >> 3u32) & 0xfu32) << 26u32) | ((version & 0x7u32) << 19u32) | ((subversion & 0xfu32) << 15u32)
        | ((bugversion & 0xfu32) << 11u32) | ((stage & 0x3u32) << 9u32) | (build & 0x1ffu32)
}

/// The host's packed version word.
pub fn pf_version(version: u32, subversion: u32, bugversion: u32, stage: Stage, build: u32) -> (r: u32)
    ensures
        r == version_word(version, subversion, bugversion, stage_code(stage), build),
{
    let s: u32 = match stage {
        Stage::Develop => 0,
        Stage::Alpha => 1,
        Stage::Beta => 2,
        Stage::Release => 3,
        Stage::Final => 4,
    };
    (((version >> 3u32) & 0xfu32) << 26u32) | ((version & 0x7u32) << 19u32) | ((subversion & 0xfu32) << 15u32)
        | ((bugversion & 0xfu32) << 11u32) | ((s & 0x3u32) << 9u32) | (build & 0x1ffu32)
}

/// One property of a descriptor.
#[derive(Clone, Copy, Debug)]
pub enum Property {
    Kind(PluginKind),
    Name(&'static str),
    Category(&'static str),
    /// Entry point name on 64-bit Windows.
    CodeWin64X86(&'static str),
    /// Entry point name on 64-bit Intel macOS.
    CodeMacIntel64(&'static str),
    /// Entry point name on ARM macOS.
    CodeMacARM64(&'static str),
    PiplVersion { major: u16, minor: u16 },
    EffectSpecVersion { major: u16, minor: u16 },
    EffectVersion { version: u32, subversion: u32, bugversion: u32, stage: Stage, build: u32 },
    /// Effect information flags; the host reads the low sixteen bits.
    InfoFlags(u32),
    GlobalOutFlags(OutFlags),
    GlobalOutFlags2(OutFlags2),
    MatchName(&'static str),
    SupportUrl(&'static str),
    ReservedInfo(u32),
}

/// The kind of a property, without its value.
#[derive(Clone, Copy, Debug, PartialEq, Eq, Structural)]
pub enum Tag {
    Kind,
    Name,
    Category,
    CodeWin64X86,
    CodeMacIntel64,
    CodeMacARM64,
    PiplVersion,
    EffectSpecVersion,
    EffectVersion,
    InfoFlags,
    GlobalOutFlags,
    GlobalOutFlags2,
    MatchName,
    SupportUrl,
    ReservedInfo,
}

/// The tag of a property.
pub open spec fn tag(p: Property) -> Tag {
    match p {
        Property::Kind(_) => Tag::Kind,
        Property::Name(_) => Tag::Name,
        Property::Category(_) => Tag::Category,
        Property::CodeWin64X86(_) => Tag::CodeWin64X86,
        Property::CodeMacIntel64(_) => Tag::CodeMacIntel64,
        Property::CodeMacARM64(_) => Tag::CodeMacARM64,
        Property::PiplVersion { .. } => Tag::PiplVersion,
        Property::EffectSpecVersion { .. } => Tag::EffectSpecVersion,
        Property::EffectVersion { .. } => Tag::EffectVersion,
        Property::InfoFlags(_) => Tag::InfoFlags,
        Property::GlobalOutFlags(_) => Tag::GlobalOutFlags,
        Property::GlobalOutFlags2(_) => Tag::GlobalOutFlags2,
        Property::MatchName(_) => Tag::MatchName,
        Property::SupportUrl(_) => Tag::SupportUrl,
        Property::ReservedInfo(_) => Tag::ReservedInfo,
    }
}

/// The tag of a property.
pub fn tag_of(p: &Property) -> (r: Tag)
    ensures
        r == tag(*p),
{
    match p {
        Property::Kind(_) => Tag::Kind,
        Property::Name(_) => Tag::Name,
        Property::Category(_) => Tag::Category,
        Property::CodeWin64X86(_) => Tag::CodeWin64X86,
        Property::CodeMacIntel64(_) => Tag::CodeMacIntel64,
        Property::CodeMacARM64(_) => Tag::CodeMacARM64,
        Property::PiplVersion { .. } => Tag::PiplVersion,
        Property::EffectSpecVersion { .. } => Tag::EffectSpecVersion,
        Property::EffectVersion { .. } => Tag::EffectVersion,
        Property::InfoFlags(_) => Tag::InfoFlags,
        Property::GlobalOutFlags(_) => Tag::GlobalOutFlags,
        Property::GlobalOutFlags2(_) => Tag::GlobalOutFlags2,
        Property::MatchName(_) => Tag::MatchName,
        Property::SupportUrl(_) => Tag::SupportUrl,
        Property::ReservedInfo(_) => Tag::ReservedInfo,
    }
}

/// The four-character key under which a property is written.
pub open spec fn key(t: Tag) -> &'static str {
    match t {
        Tag::Kind => "kind",
        Tag::Name => "name",
        Tag::Category => "catg",
        Tag::CodeWin64X86 => "8664",
        Tag::CodeMacIntel64 => "mi64",
        Tag::CodeMacARM64 => "ma64",
        Tag::PiplVersion => "ePVR",
        Tag::EffectSpecVersion => "eSVR",
        Tag::EffectVersion => "eVER",
        Tag::InfoFlags => "eINF",
        Tag::GlobalOutFlags => "eGLO",
        Tag::GlobalOutFlags2 => "eGL2",
        Tag::MatchName => "eMNA",
        Tag::SupportUrl => "eURL",
        Tag::ReservedInfo => "aeFL",
    }
}

fn key_of(t: Tag) -> (r: &'static str)
    ensures
        r == key(t),
{
    match t {
        Tag::Kind => "kind",
        Tag::Name => "name",
        Tag::Category => "catg",
        Tag::CodeWin64X86 => "8664",
        Tag::CodeMacIntel64 => "mi64",
        Tag::CodeMacARM64 => "ma64",
        Tag::PiplVersion => "ePVR",
        Tag::EffectSpecVersion => "eSVR",
        Tag::EffectVersion => "eVER",
        Tag::InfoFlags => "eINF",
        Tag::GlobalOutFlags => "eGLO",
        Tag::GlobalOutFlags2 => "eGL2",
        Tag::MatchName => "eMNA",
        Tag::SupportUrl => "eURL",
        Tag::ReservedInfo => "aeFL",
    }
}

/// The text a property writes as a length-prefixed string, if any.
pub open spec fn pascal_text(p: Property) -> Option<Seq<u8>> {
    match p {
        Property::Name(s) => Some(s.spec_bytes()),
        Property::Category(s) => Some(s.spec_bytes()),
        Property::CodeMacIntel64(s) => Some(s.spec_bytes()),
        Property::CodeMacARM64(s) => Some(s.spec_bytes()),
        Property::MatchName(s) => Some(s.spec_bytes()),
        Property::SupportUrl(s) => Some(s.spec_bytes()),
        _ => None,
    }
}

/// Longest text a length-prefixed string holds.
pub const MAX_PASCAL_LEN: usize = 255;

/// `x` as four bytes, most significant first.
pub open spec fn be32(x: u32) -> Seq<u8> {
    seq![(x / 0x100_0000) as u8, (x / 0x1_0000 % 256) as u8, (x / 0x100 % 256) as u8, (x % 256) as u8]
}

/// `x` as two bytes, most significant first.
pub open spec fn be16(x: u16) -> Seq<u8> {
    seq![(x / 256) as u8, (x % 256) as u8]
}

/// A length byte followed by the text.
pub open spec fn pascal(s: Seq<u8>) -> Seq<u8> {
    seq![s.len() as u8] + s
}

/// What a property holds, before padding.
pub open spec fn content(p: Property) -> Seq<u8> {
    match p {
        Property::Kind(k) => kind_code(k).spec_bytes(),
        Property::Name(s) => pascal(s.spec_bytes()),
        Property::Category(s) => pascal(s.spec_bytes()),
        Property::CodeWin64X86(s) => s.spec_bytes().push(0u8),
        Property::CodeMacIntel64(s) => pascal(s.spec_bytes()),
        Property::CodeMacARM64(s) => pascal(s.spec_bytes()),
        Property::PiplVersion { major, minor } => be16(major) + be16(minor),
        Property::EffectSpecVersion { major, minor } => be16(major) + be16(minor),
        Property::EffectVersion { version, subversion, bugversion, stage, build } => be32(
            version_word(version, subversion, bugversion, stage_code(stage), build),
        ),
        Property::InfoFlags(x) => be16((x % 0x1_0000) as u16),
        Property::GlobalOutFlags(f) => be32(f.bits),
        Property::GlobalOutFlags2(f) => be32(f.bits),
        Property::MatchName(s) => pascal(s.spec_bytes()),
        Property::SupportUrl(s) => pascal(s.spec_bytes()),
        Property::ReservedInfo(x) => be32(x),
    }
}

/// Zero bytes that bring `n` bytes to a multiple of four.
pub open spec fn padding(n: nat) -> Seq<u8> {
    Seq::new(if n % 4 == 0 { 0 } else { (4 - n % 4) as nat }, |i: int| 0u8)
}

/// The vendor code every property is written under.
pub const VENDOR: &'static str = "8BIM";

/// One property as written: vendor, key, a zero word, the content's length,
/// the content, and padding.
pub open spec fn property_bytes(p: Property) -> Seq<u8> {
    VENDOR.spec_bytes() + key(tag(p)).spec_bytes() + be32(0) + be32(content(p).len() as u32) + content(p)
        + padding(content(p).len())
}

/// The properties as written, in order.
pub open spec fn properties_bytes(ps: Seq<Property>) -> Seq<u8>
    decreases ps.len(),
{
    if ps.len() == 0 {
        Seq::empty()
    } else {
        properties_bytes(ps.drop_last()) + property_bytes(ps.last())
    }
}

/// A descriptor as written: a zero version word, the count, the properties.
pub open spec fn pipl_bytes(ps: Seq<Property>) -> Seq<u8> {
    be32(0) + be32(ps.len() as u32) + properties_bytes(ps)
}

/// Whether a property's text fits: a length-prefixed text its length byte,
/// and any content the length word.
pub open spec fn text_fits(p: Property) -> bool {
    &&& pascal_text(p) matches Some(s) ==> s.len() <= MAX_PASCAL_LEN
    &&& content(p).len() <= u32::MAX
}

/// Every property's text fits.
pub open spec fn texts_fit(ps: Seq<Property>) -> bool {
    forall|i: int| 0 <= i < ps.len() ==> #[trigger] text_fits(ps[i])
}

fn push_be32(out: &mut Vec<u8>, x: u32)
    ensures
        final(out)@ == old(out)@ + be32(x),
{
    out.push((x / 0x100_0000) as u8);
    out.push((x / 0x1_0000 % 256) as u8);
    out.push((x / 0x100 % 256) as u8);
    out.push((x % 256) as u8);
    assert(out@ =~= old(out)@ + be32(x));
}

fn push_be16(out: &mut Vec<u8>, x: u16)
    ensures
        final(out)@ == old(out)@ + be16(x),
{
    out.push((x / 256) as u8);
    out.push((x % 256) as u8);
    assert(out@ =~= old(out)@ + be16(x));
}

fn push_bytes(out: &mut Vec<u8>, b: &[u8])
    ensures
        final(out)@ == old(out)@ + b@,
{
    let mut i: usize = 0;
    while i < b.len()
        invariant
            i <= b@.len(),
            out@ == old(out)@ + b@.take(i as int),
        decreases b@.len() - i,
    {
        out.push(b[i]);
        i += 1;
        assert(out@ =~= old(out)@ + b@.take(i as int));
    }
    assert(b@.take(b@.len() as int) =~= b@);
}

fn push_pascal(out: &mut Vec<u8>, s: &str)
    requires
        s.spec_bytes().len() <= MAX_PASCAL_LEN,
    ensures
        final(out)@ == old(out)@ + pascal(s.spec_bytes()),
{
    let b = s.as_bytes();
    out.push(b.len() as u8);
    push_bytes(out, b);
    assert(out@ =~= old(out)@ + pascal(s.spec_bytes()));
}

/// The content of a property.
fn content_of(p: &Property) -> (r: Vec<u8>)
    requires
        pascal_text(*p) matches Some(s) ==> s.len() <= MAX_PASCAL_LEN,
    ensures
        r@ == content(*p),
{
    let mut out: Vec<u8> = Vec::new();
    match p {
        Property::Kind(k) => {
            let code: &'static str = match k {
                PluginKind::General => "8BPI",
                PluginKind::Filter => "8BFM",
                PluginKind::AEEffect => "eFKT",
                PluginKind::AEGeneral => "AEgp",
                PluginKind::SweetPea => "SPEA",
                PluginKind::AIGeneral => "ARPI",
            };
            push_bytes(&mut out, code.as_bytes());
        },
        Property::Name(s) => push_pascal(&mut out, s),
        Property::Category(s) => push_pascal(&mut out, s),
        Property::CodeWin64X86(s) => {
            push_bytes(&mut out, s.as_bytes());
            out.push(0u8);
        },
        Property::CodeMacIntel64(s) => push_pascal(&mut out, s),
        Property::CodeMacARM64(s) => push_pascal(&mut out, s),
        Property::PiplVersion { major, minor } => {
            push_be16(&mut out, *major);
            push_be16(&mut out, *minor);
        },
        Property::EffectSpecVersion { major, minor } => {
            push_be16(&mut out, *major);
            push_be16(&mut out, *minor);
        },
        Property::EffectVersion { version, subversion, bugversion, stage, build } => {
            push_be32(&mut out, pf_version(*version, *subversion, *bugversion, *stage, *build));
        },
        Property::InfoFlags(x) => push_be16(&mut out, (*x % 0x1_0000) as u16),
        Property::GlobalOutFlags(f) => push_be32(&mut out, f.bits),
        Property::GlobalOutFlags2(f) => push_be32(&mut out, f.bits),
        Property::MatchName(s) => push_pascal(&mut out, s),
        Property::SupportUrl(s) => push_pascal(&mut out, s),
        Property::ReservedInfo(x) => push_be32(&mut out, *x),
    }
    assert(out@ =~= content(*p));
    out
}

/// Appends one property as written.
fn push_property(out: &mut Vec<u8>, p: &Property)
    requires
        pascal_text(*p) matches Some(s) ==> s.len() <= MAX_PASCAL_LEN,
        content(*p).len() <= u32::MAX,
    ensures
        final(out)@ == old(out)@ + property_bytes(*p),
{
    let c = content_of(p);
    push_bytes(out, VENDOR.as_bytes());
    push_bytes(out, key_of(tag_of(p)).as_bytes());
    push_be32(out, 0);
    push_be32(out, c.len() as u32);
    push_bytes(out, c.as_slice());
    let pad: usize = if c.len() % 4 == 0 {
        0
    } else {
        4 - c.len() % 4
    };
    let ghost before = out@;
    let mut i: usize = 0;
    while i < pad
        invariant
            i <= pad,
            out@ == before + Seq::new(i as nat, |j: int| 0u8),
        decreases pad - i,
    {
        out.push(0u8);
        i += 1;
        assert(out@ =~= before + Seq::new(i as nat, |j: int| 0u8));
    }
    assert(padding(c@.len()) =~= Seq::new(pad as nat, |j: int| 0u8));
    assert(out@ =~= old(out)@ + property_bytes(*p));
}

/// Writes a descriptor in the host's layout, property by property in the
/// given order. Nothing is checked (see `build_pipl`).
pub fn encode_pipl(ps: &Vec<Property>) -> (r: Vec<u8>)
    requires
        ps@.len() <= u32::MAX,
        texts_fit(ps@),
    ensures
        r@ == pipl_bytes(ps@),
{
    let mut out: Vec<u8> = Vec::new();
    push_be32(&mut out, 0);
    push_be32(&mut out, ps.len() as u32);
    let ghost head = out@;
    let mut i: usize = 0;
    while i < ps.len()
        invariant
            i <= ps@.len(),
            texts_fit(ps@),
            out@ == head + properties_bytes(ps@.take(i as int)),
        decreases ps@.len() - i,
    {
        let p = &ps[i];
        proof {
            assert(text_fits(ps@[i as int]));
        }
        push_property(&mut out, p);
        proof {
            assert(ps@.take(i + 1).drop_last() =~= ps@.take(i as int));
            assert(ps@.take(i + 1).last() == ps@[i as int]);
        }
        i += 1;
    }
    assert(ps@.take(ps@.len() as int) =~= ps@);
    out
}

/// Why a descriptor is refused.
#[derive(Clone, Copy, Debug, PartialEq, Eq, Structural)]
pub enum PiplError {
    /// A property occurs more than once.
    Duplicate(Tag),
    /// A property the descriptor needs is absent.
    Missing(Tag),
    /// No entry point is named for any architecture.
    NoCodeEntry,
    /// An effect property in the descriptor of a plug-in that is no effect.
    UnexpectedForKind(Tag),
    /// A text does not fit its length field.
    TextTooLong(Tag),
    /// An effect version whose stage the host cannot represent.
    StageNotEncodable,
}

/// How many properties of `ps` have tag `t`.
pub open spec fn count(ps: Seq<Property>, t: Tag) -> nat
    decreases ps.len(),
{
    if ps.len() == 0 {
        0
    } else {
        count(ps.drop_last(), t) + if tag(ps.last()) == t {
            1nat
        } else {
            0nat
        }
    }
}

/// Whether the descriptor declares an effect.
pub open spec fn is_effect(ps: Seq<Property>) -> bool {
    exists|i: int| 0 <= i < ps.len() && #[trigger] ps[i] == Property::Kind(PluginKind::AEEffect)
}

/// The properties an effect must have exactly once, beyond kind, name and code.
pub open spec fn effect_required(t: Tag) -> bool {
    ||| t == Tag::PiplVersion
    ||| t == Tag::EffectSpecVersion
    ||| t == Tag::EffectVersion
    ||| t == Tag::InfoFlags
    ||| t == Tag::GlobalOutFlags
    ||| t == Tag::GlobalOutFlags2
}

/// The properties only an effect may have.
pub open spec fn effect_only(t: Tag) -> bool {
    effect_required(t) || t == Tag::MatchName || t == Tag::SupportUrl || t == Tag::ReservedInfo
}

/// How many entry points the descriptor names.
pub open spec fn code_entries(ps: Seq<Property>) -> nat {
    count(ps, Tag::CodeWin64X86) + count(ps, Tag::CodeMacIntel64) + count(ps, Tag::CodeMacARM64)
}

/// Whether a property is an effect version in a stage the host cannot hold.
pub open spec fn bad_stage(p: Property) -> bool {
    p matches Property::EffectVersion { stage, .. } && stage == Stage::Final
}

/// Whether `ps` breaks the rule that `e` names.
pub open spec fn violates(ps: Seq<Property>, e: PiplError) -> bool {
    match e {
        PiplError::Duplicate(t) => count(ps, t) > 1,
        PiplError::Missing(t) => count(ps, t) == 0 && (t == Tag::Kind || t == Tag::Name || (
        is_effect(ps) && effect_required(t))),
        PiplError::NoCodeEntry => code_entries(ps) == 0,
        PiplError::UnexpectedForKind(t) => !is_effect(ps) && effect_only(t) && count(ps, t) > 0,
        PiplError::TextTooLong(t) => exists|i: int|
            0 <= i < ps.len() && tag(ps[i]) == t && !#[trigger] text_fits(ps[i]),
        PiplError::StageNotEncodable => exists|i: int| 0 <= i < ps.len() && #[trigger] bad_stage(ps[i]),
    }
}

/// A well-formed descriptor: every property at most once; exactly one kind
/// and one name; an entry point for at least one architecture; for an
/// effect, exactly one of each version, the info flags and both out-flag
/// words, and for anything else none of the effect properties; texts that
/// fit; stages the host can hold.
pub open spec fn valid(ps: Seq<Property>) -> bool {
    &&& forall|t: Tag| #[trigger] count(ps, t) <= 1
    &&& count(ps, Tag::Kind) == 1
    &&& count(ps, Tag::Name) == 1
    &&& code_entries(ps) >= 1
    &&& is_effect(ps) ==> forall|t: Tag| effect_required(t) ==> #[trigger] count(ps, t) == 1
    &&& !is_effect(ps) ==> forall|t: Tag| effect_only(t) ==> #[trigger] count(ps, t) == 0
    &&& texts_fit(ps)
    &&& forall|i: int| 0 <= i < ps.len() ==> !#[trigger] bad_stage(ps[i])
}

/// How many properties of `ps` have tag `t`.
pub fn count_tag(ps: &Vec<Property>, t: Tag) -> (r: usize)
    ensures
        r == count(ps@, t),
{
    let mut c: usize = 0;
    let mut i: usize = 0;
    while i < ps.len()
        invariant
            i <= ps@.len(),
            c == count(ps@.take(i as int), t),
            c <= i,
        decreases ps@.len() - i,
    {
        proof {
            assert(ps@.take(i + 1).drop_last() =~= ps@.take(i as int));
        }
        if tag_of(&ps[i]) == t {
            c += 1;
        }
        i += 1;
    }
    assert(ps@.take(ps@.len() as int) =~= ps@);
    c
}

/// Whether the descriptor declares an effect.
fn declares_effect(ps: &Vec<Property>) -> (r: bool)
    ensures
        r == is_effect(ps@),
{
    let mut i: usize = 0;
    while i < ps.len()
        invariant
            i <= ps@.len(),
            forall|j: int| 0 <= j < i ==> ps@[j] != Property::Kind(PluginKind::AEEffect),
        decreases ps@.len() - i,
    {
        if let Property::Kind(PluginKind::AEEffect) = ps[i] {
            return true;
        }
        i += 1;
    }
    false
}

/// Whether a property's text fits.
fn fits(p: &Property) -> (r: bool)
    ensures
        r == text_fits(*p),
{
    let short = match p {
        Property::Name(s) => s.as_bytes().len() <= MAX_PASCAL_LEN,
        Property::Category(s) => s.as_bytes().len() <= MAX_PASCAL_LEN,
        Property::CodeMacIntel64(s) => s.as_bytes().len() <= MAX_PASCAL_LEN,
        Property::CodeMacARM64(s) => s.as_bytes().len() <= MAX_PASCAL_LEN,
        Property::MatchName(s) => s.as_bytes().len() <= MAX_PASCAL_LEN,
        Property::SupportUrl(s) => s.as_bytes().len() <= MAX_PASCAL_LEN,
        _ => true,
    };
    if !short {
        return false;
    }
    let c = content_of(p);
    c.len() <= 0xffff_ffffusize
}

/// Checks texts and stages: the first property whose text does not fit, or
/// whose stage cannot be held.
fn check_values(ps: &Vec<Property>) -> (r: Option<PiplError>)
    ensures
        r is None <==> texts_fit(ps@) && forall|i: int| 0 <= i < ps@.len() ==> !#[trigger] bad_stage(ps@[i]),
        r matches Some(e) ==> violates(ps@, e),
{
    let mut i: usize = 0;
    while i < ps.len()
        invariant
            i <= ps@.len(),
            forall|j: int| 0 <= j < i ==> #[trigger] text_fits(ps@[j]),
            forall|j: int| 0 <= j < i ==> !#[trigger] bad_stage(ps@[j]),
        decreases ps@.len() - i,
    {
        if !fits(&ps[i]) {
            proof {
                assert(!text_fits(ps@[i as int]));
            }
            return Some(PiplError::TextTooLong(tag_of(&ps[i])));
        }
        if let Property::EffectVersion { stage: Stage::Final, .. } = ps[i] {
            proof {
                assert(bad_stage(ps@[i as int]));
            }
            return Some(PiplError::StageNotEncodable);
        }
        i += 1;
    }
    None
}

/// Checks how often each property occurs (see `valid`).
#[verifier::rlimit(50)]
fn check_counts(ps: &Vec<Property>) -> (r: Option<PiplError>)
    ensures
        r is None <==> {
            &&& forall|t: Tag| #[trigger] count(ps@, t) <= 1
            &&& count(ps@, Tag::Kind) == 1
            &&& count(ps@, Tag::Name) == 1
            &&& code_entries(ps@) >= 1
            &&& is_effect(ps@) ==> forall|t: Tag| effect_required(t) ==> #[trigger] count(ps@, t) == 1
            &&& !is_effect(ps@) ==> forall|t: Tag| effect_only(t) ==> #[trigger] count(ps@, t) == 0
        },
        r matches Some(e) ==> violates(ps@, e),
{
    let n_kind = count_tag(ps, Tag::Kind);
    let n_name = count_tag(ps, Tag::Name);
    let n_category = count_tag(ps, Tag::Category);
    let n_codewin64x86 = count_tag(ps, Tag::CodeWin64X86);
    let n_codemacintel64 = count_tag(ps, Tag::CodeMacIntel64);
    let n_codemacarm64 = count_tag(ps, Tag::CodeMacARM64);
    let n_piplversion = count_tag(ps, Tag::PiplVersion);
    let n_effectspecversion = count_tag(ps, Tag::EffectSpecVersion);
    let n_effectversion = count_tag(ps, Tag::EffectVersion);
    let n_infoflags = count_tag(ps, Tag::InfoFlags);
    let n_globaloutflags = count_tag(ps, Tag::GlobalOutFlags);
    let n_globaloutflags2 = count_tag(ps, Tag::GlobalOutFlags2);
    let n_matchname = count_tag(ps, Tag::MatchName);
    let n_supporturl = count_tag(ps, Tag::SupportUrl);
    let n_reservedinfo = count_tag(ps, Tag::ReservedInfo);
    if n_kind > 1 {
        return Some(PiplError::Duplicate(Tag::Kind));
    }
    if n_name > 1 {
        return Some(PiplError::Duplicate(Tag::Name));
    }
    if n_category > 1 {
        return Some(PiplError::Duplicate(Tag::Category));
    }
    if n_codewin64x86 > 1 {
        return Some(PiplError::Duplicate(Tag::CodeWin64X86));
    }
    if n_codemacintel64 > 1 {
        return Some(PiplError::Duplicate(Tag::CodeMacIntel64));
    }
    if n_codemacarm64 > 1 {
        return Some(PiplError::Duplicate(Tag::CodeMacARM64));
    }
    if n_piplversion > 1 {
        return Some(PiplError::Duplicate(Tag::PiplVersion));
    }
    if n_effectspecversion > 1 {
        return Some(PiplError::Duplicate(Tag::EffectSpecVersion));
    }
    if n_effectversion > 1 {
        return Some(PiplError::Duplicate(Tag::EffectVersion));
    }
    if n_infoflags > 1 {
        return Some(PiplError::Duplicate(Tag::InfoFlags));
    }
    if n_globaloutflags > 1 {
        return Some(PiplError::Duplicate(Tag::GlobalOutFlags));
    }
    if n_globaloutflags2 > 1 {
        return Some(PiplError::Duplicate(Tag::GlobalOutFlags2));
    }
    if n_matchname > 1 {
        return Some(PiplError::Duplicate(Tag::MatchName));
    }
    if n_supporturl > 1 {
        return Some(PiplError::Duplicate(Tag::SupportUrl));
    }
    if n_reservedinfo > 1 {
        return Some(PiplError::Duplicate(Tag::ReservedInfo));
    }
    if n_kind == 0 {
        return Some(PiplError::Missing(Tag::Kind));
    }
    if n_name == 0 {
        return Some(PiplError::Missing(Tag::Name));
    }
    if n_codewin64x86 + n_codemacintel64 + n_codemacarm64 == 0 {
        return Some(PiplError::NoCodeEntry);
    }
    if declares_effect(ps) {
        if n_piplversion == 0 {
            return Some(PiplError::Missing(Tag::PiplVersion));
        }
        if n_effectspecversion == 0 {
            return Some(PiplError::Missing(Tag::EffectSpecVersion));
        }
        if n_effectversion == 0 {
            return Some(PiplError::Missing(Tag::EffectVersion));
        }
        if n_infoflags == 0 {
            return Some(PiplError::Missing(Tag::InfoFlags));
        }
        if n_globaloutflags == 0 {
            return Some(PiplError::Missing(Tag::GlobalOutFlags));
        }
        if n_globaloutflags2 == 0 {
            return Some(PiplError::Missing(Tag::GlobalOutFlags2));
        }
    } else {
        if n_piplversion > 0 {
            return Some(PiplError::UnexpectedForKind(Tag::PiplVersion));
        }
        if n_effectspecversion > 0 {
            return Some(PiplError::UnexpectedForKind(Tag::EffectSpecVersion));
        }
        if n_effectversion > 0 {
            return Some(PiplError::UnexpectedForKind(Tag::EffectVersion));
        }
        if n_infoflags > 0 {
            return Some(PiplError::UnexpectedForKind(Tag::InfoFlags));
        }
        if n_globaloutflags > 0 {
            return Some(PiplError::UnexpectedForKind(Tag::GlobalOutFlags));
        }
        if n_globaloutflags2 > 0 {
            return Some(PiplError::UnexpectedForKind(Tag::GlobalOutFlags2));
        }
        if n_matchname > 0 {
            return Some(PiplError::UnexpectedForKind(Tag::MatchName));
        }
        if n_supporturl > 0 {
            return Some(PiplError::UnexpectedForKind(Tag::SupportUrl));
        }
        if n_reservedinfo > 0 {
            return Some(PiplError::UnexpectedForKind(Tag::ReservedInfo));
        }
    }
    None
}

/// The descriptor `ps` in the host's layout, when it is well formed (see
/// `valid`); otherwise a rule that it breaks.
pub fn build_pipl(ps: &Vec<Property>) -> (r: Result<Vec<u8>, PiplError>)
    requires
        ps@.len() <= u32::MAX,
    ensures
        r is Ok <==> valid(ps@),
        r matches Ok(b) ==> b@ == pipl_bytes(ps@),
        r matches Err(e) ==> violates(ps@, e),
{
    if let Some(e) = check_counts(ps) {
        return Err(e);
    }
    if let Some(e) = check_values(ps) {
        return Err(e);
    }
    Ok(encode_pipl(ps))
}

} // verus!
