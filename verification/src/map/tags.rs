//! The tags of the sections that a map container may hold, and the codec
//! that each of them is decoded with.
//!
//! A tag is eight bytes of ASCII text: `hoix` and four letters or digits.

use vstd::prelude::*;
use vstd::string::StringSliceAdditionalSpecFns;

verus! {

/// The way a section's payload is stored.
#[derive(Debug, Clone, Copy, PartialEq, Eq, Structural)]
pub enum Codec {
    /// Run-length coded bytes behind a preamble.
    ByteRle,
    /// Run-length coded 16-bit words behind a preamble.
    WordRle,
    /// A counted list of short strings.
    Dictionary,
    /// Plain bytes behind a preamble.
    Raw,
    /// The width and the height of the map.
    Size,
}

/// The sections that this library knows, each under its tag.
#[allow(non_camel_case_types)]
#[derive(Debug, Clone, Copy, PartialEq, Eq, Hash, Structural)]
pub enum MapSectionName {
    hoixehml,
    hoixapml,
    hoixbpml,
    hoixtlml,
    hoixvlml,
    hoixplml,
    hoixocml,
    hoixwtml,
    hoixsmml,
    hoixrpml,
    hoixbwml,
    hoixbbml,
    hoixorml,
    hoixbsml,
    hoixoaml,
    hoixrbme,
    hoix1mme,
    hoiximme,
    hoixdpae,
    hoixapme,
    hoixbpme,
    hoixdtae,
    hoix1tme,
    hoix2tme,
    hoix3tme,
    hoix4tme,
    hoixdlae,
    hoixalme,
    hoixzisl,
}

/// The number of known sections.
pub const SECTION_COUNT: usize = 29;

/// The four bytes that every tag starts with: `hoix`.
pub open spec fn tag_prefix() -> Seq<u8> {
    seq![0x68u8, 0x6Fu8, 0x69u8, 0x78u8]
}

/// The last four bytes of a section's tag.
pub open spec fn tag_suffix(name: MapSectionName) -> (u8, u8, u8, u8) {
    match name {
        MapSectionName::hoixehml => (0x65u8, 0x68u8, 0x6Du8, 0x6Cu8),
        MapSectionName::hoixapml => (0x61u8, 0x70u8, 0x6Du8, 0x6Cu8),
        MapSectionName::hoixbpml => (0x62u8, 0x70u8, 0x6Du8, 0x6Cu8),
        MapSectionName::hoixtlml => (0x74u8, 0x6Cu8, 0x6Du8, 0x6Cu8),
        MapSectionName::hoixvlml => (0x76u8, 0x6Cu8, 0x6Du8, 0x6Cu8),
        MapSectionName::hoixplml => (0x70u8, 0x6Cu8, 0x6Du8, 0x6Cu8),
        MapSectionName::hoixocml => (0x6Fu8, 0x63u8, 0x6Du8, 0x6Cu8),
        MapSectionName::hoixwtml => (0x77u8, 0x74u8, 0x6Du8, 0x6Cu8),
        MapSectionName::hoixsmml => (0x73u8, 0x6Du8, 0x6Du8, 0x6Cu8),
        MapSectionName::hoixrpml => (0x72u8, 0x70u8, 0x6Du8, 0x6Cu8),
        MapSectionName::hoixbwml => (0x62u8, 0x77u8, 0x6Du8, 0x6Cu8),
        MapSectionName::hoixbbml => (0x62u8, 0x62u8, 0x6Du8, 0x6Cu8),
        MapSectionName::hoixorml => (0x6Fu8, 0x72u8, 0x6Du8, 0x6Cu8),
        MapSectionName::hoixbsml => (0x62u8, 0x73u8, 0x6Du8, 0x6Cu8),
        MapSectionName::hoixoaml => (0x6Fu8, 0x61u8, 0x6Du8, 0x6Cu8),
        MapSectionName::hoixrbme => (0x72u8, 0x62u8, 0x6Du8, 0x65u8),
        MapSectionName::hoix1mme => (0x31u8, 0x6Du8, 0x6Du8, 0x65u8),
        MapSectionName::hoiximme => (0x69u8, 0x6Du8, 0x6Du8, 0x65u8),
        MapSectionName::hoixdpae => (0x64u8, 0x70u8, 0x61u8, 0x65u8),
        MapSectionName::hoixapme => (0x61u8, 0x70u8, 0x6Du8, 0x65u8),
        MapSectionName::hoixbpme => (0x62u8, 0x70u8, 0x6Du8, 0x65u8),
        MapSectionName::hoixdtae => (0x64u8, 0x74u8, 0x61u8, 0x65u8),
        MapSectionName::hoix1tme => (0x31u8, 0x74u8, 0x6Du8, 0x65u8),
        MapSectionName::hoix2tme => (0x32u8, 0x74u8, 0x6Du8, 0x65u8),
        MapSectionName::hoix3tme => (0x33u8, 0x74u8, 0x6Du8, 0x65u8),
        MapSectionName::hoix4tme => (0x34u8, 0x74u8, 0x6Du8, 0x65u8),
        MapSectionName::hoixdlae => (0x64u8, 0x6Cu8, 0x61u8, 0x65u8),
        MapSectionName::hoixalme => (0x61u8, 0x6Cu8, 0x6Du8, 0x65u8),
        MapSectionName::hoixzisl => (0x7Au8, 0x69u8, 0x73u8, 0x6Cu8),
    }
}

/// The eight bytes of a section's tag.
pub open spec fn tag_of(name: MapSectionName) -> Seq<u8> {
    let s = tag_suffix(name);
    seq![0x68u8, 0x6Fu8, 0x69u8, 0x78u8, s.0, s.1, s.2, s.3]
}

/// The place of a section in the list of known sections.
pub open spec fn index_of(name: MapSectionName) -> int {
    match name {
        MapSectionName::hoixehml => 0,
        MapSectionName::hoixapml => 1,
        MapSectionName::hoixbpml => 2,
        MapSectionName::hoixtlml => 3,
        MapSectionName::hoixvlml => 4,
        MapSectionName::hoixplml => 5,
        MapSectionName::hoixocml => 6,
        MapSectionName::hoixwtml => 7,
        MapSectionName::hoixsmml => 8,
        MapSectionName::hoixrpml => 9,
        MapSectionName::hoixbwml => 10,
        MapSectionName::hoixbbml => 11,
        MapSectionName::hoixorml => 12,
        MapSectionName::hoixbsml => 13,
        MapSectionName::hoixoaml => 14,
        MapSectionName::hoixrbme => 15,
        MapSectionName::hoix1mme => 16,
        MapSectionName::hoiximme => 17,
        MapSectionName::hoixdpae => 18,
        MapSectionName::hoixapme => 19,
        MapSectionName::hoixbpme => 20,
        MapSectionName::hoixdtae => 21,
        MapSectionName::hoix1tme => 22,
        MapSectionName::hoix2tme => 23,
        MapSectionName::hoix3tme => 24,
        MapSectionName::hoix4tme => 25,
        MapSectionName::hoixdlae => 26,
        MapSectionName::hoixalme => 27,
        MapSectionName::hoixzisl => 28,
    }
}

/// The codec that a section is decoded with.
pub open spec fn codec_of(name: MapSectionName) -> Codec {
    match name {
        MapSectionName::hoixehml => Codec::ByteRle,
        MapSectionName::hoixapml => Codec::ByteRle,
        MapSectionName::hoixbpml => Codec::ByteRle,
        MapSectionName::hoixtlml => Codec::ByteRle,
        MapSectionName::hoixvlml => Codec::ByteRle,
        MapSectionName::hoixplml => Codec::ByteRle,
        MapSectionName::hoixocml => Codec::ByteRle,
        MapSectionName::hoixwtml => Codec::ByteRle,
        MapSectionName::hoixsmml => Codec::ByteRle,
        MapSectionName::hoixrpml => Codec::ByteRle,
        MapSectionName::hoixbwml => Codec::ByteRle,
        MapSectionName::hoixbbml => Codec::ByteRle,
        MapSectionName::hoixorml => Codec::ByteRle,
        MapSectionName::hoixbsml => Codec::ByteRle,
        MapSectionName::hoixoaml => Codec::WordRle,
        MapSectionName::hoixrbme => Codec::ByteRle,
        MapSectionName::hoix1mme => Codec::ByteRle,
        MapSectionName::hoiximme => Codec::ByteRle,
        MapSectionName::hoixdpae => Codec::Dictionary,
        MapSectionName::hoixapme => Codec::WordRle,
        MapSectionName::hoixbpme => Codec::WordRle,
        MapSectionName::hoixdtae => Codec::Dictionary,
        MapSectionName::hoix1tme => Codec::ByteRle,
        MapSectionName::hoix2tme => Codec::ByteRle,
        MapSectionName::hoix3tme => Codec::ByteRle,
        MapSectionName::hoix4tme => Codec::ByteRle,
        MapSectionName::hoixdlae => Codec::Dictionary,
        MapSectionName::hoixalme => Codec::Raw,
        MapSectionName::hoixzisl => Codec::Size,
    }
}

/// The tag of a section as text: every byte of it is a character.
pub open spec fn tag_text(name: MapSectionName) -> Seq<char> {
    Seq::new(8, |i: int| tag_of(name)[i] as char)
}

/// The section that carries a tag, if it is a known one.
pub open spec fn name_of_tag(tag: Seq<u8>) -> Option<MapSectionName> {
    if exists|name: MapSectionName| tag_of(name) == tag {
        Some(choose|name: MapSectionName| tag_of(name) == tag)
    } else {
        None
    }
}

/// Two sections with one tag are one section.
pub proof fn lemma_tags_differ(a: MapSectionName, b: MapSectionName)
    requires
        tag_of(a) == tag_of(b),
    ensures
        a == b,
{
    let s = tag_suffix(a);
    let t = tag_suffix(b);
    assert(tag_of(a)[4] == s.0 && tag_of(a)[5] == s.1 && tag_of(a)[6] == s.2 && tag_of(a)[7] == s.3);
    assert(tag_of(b)[4] == t.0 && tag_of(b)[5] == t.1 && tag_of(b)[6] == t.2 && tag_of(b)[7] == t.3);
}

/// Every section is found again under its own tag.
pub proof fn lemma_name_of_own_tag(name: MapSectionName)
    ensures
        name_of_tag(tag_of(name)) == Some(name),
{
    let found = choose|other: MapSectionName| tag_of(other) == tag_of(name);
    lemma_tags_differ(found, name);
}

impl MapSectionName {
    /// The tag as text.
    pub fn as_str(&self) -> (text: &'static str)
        ensures
            text@ == tag_text(*self),
    {
        match self {
            MapSectionName::hoixehml => {
                proof {
                    reveal_strlit("hoixehml");
                    assert("hoixehml"@ =~= tag_text(*self));
                }
                "hoixehml"
            },
            MapSectionName::hoixapml => {
                proof {
                    reveal_strlit("hoixapml");
                    assert("hoixapml"@ =~= tag_text(*self));
                }
                "hoixapml"
            },
            MapSectionName::hoixbpml => {
                proof {
                    reveal_strlit("hoixbpml");
                    assert("hoixbpml"@ =~= tag_text(*self));
                }
                "hoixbpml"
            },
            MapSectionName::hoixtlml => {
                proof {
                    reveal_strlit("hoixtlml");
                    assert("hoixtlml"@ =~= tag_text(*self));
                }
                "hoixtlml"
            },
            MapSectionName::hoixvlml => {
                proof {
                    reveal_strlit("hoixvlml");
                    assert("hoixvlml"@ =~= tag_text(*self));
                }
                "hoixvlml"
            },
            MapSectionName::hoixplml => {
                proof {
                    reveal_strlit("hoixplml");
                    assert("hoixplml"@ =~= tag_text(*self));
                }
                "hoixplml"
            },
            MapSectionName::hoixocml => {
                proof {
                    reveal_strlit("hoixocml");
                    assert("hoixocml"@ =~= tag_text(*self));
                }
                "hoixocml"
            },
            MapSectionName::hoixwtml => {
                proof {
                    reveal_strlit("hoixwtml");
                    assert("hoixwtml"@ =~= tag_text(*self));
                }
                "hoixwtml"
            },
            MapSectionName::hoixsmml => {
                proof {
                    reveal_strlit("hoixsmml");
                    assert("hoixsmml"@ =~= tag_text(*self));
                }
                "hoixsmml"
            },
            MapSectionName::hoixrpml => {
                proof {
                    reveal_strlit("hoixrpml");
                    assert("hoixrpml"@ =~= tag_text(*self));
                }
                "hoixrpml"
            },
            MapSectionName::hoixbwml => {
                proof {
                    reveal_strlit("hoixbwml");
                    assert("hoixbwml"@ =~= tag_text(*self));
                }
                "hoixbwml"
            },
            MapSectionName::hoixbbml => {
                proof {
                    reveal_strlit("hoixbbml");
                    assert("hoixbbml"@ =~= tag_text(*self));
                }
                "hoixbbml"
            },
            MapSectionName::hoixorml => {
                proof {
                    reveal_strlit("hoixorml");
                    assert("hoixorml"@ =~= tag_text(*self));
                }
                "hoixorml"
            },
            MapSectionName::hoixbsml => {
                proof {
                    reveal_strlit("hoixbsml");
                    assert("hoixbsml"@ =~= tag_text(*self));
                }
                "hoixbsml"
            },
            MapSectionName::hoixoaml => {
                proof {
                    reveal_strlit("hoixoaml");
                    assert("hoixoaml"@ =~= tag_text(*self));
                }
                "hoixoaml"
            },
            MapSectionName::hoixrbme => {
                proof {
                    reveal_strlit("hoixrbme");
                    assert("hoixrbme"@ =~= tag_text(*self));
                }
                "hoixrbme"
            },
            MapSectionName::hoix1mme => {
                proof {
                    reveal_strlit("hoix1mme");
                    assert("hoix1mme"@ =~= tag_text(*self));
                }
                "hoix1mme"
            },
            MapSectionName::hoiximme => {
                proof {
                    reveal_strlit("hoiximme");
                    assert("hoiximme"@ =~= tag_text(*self));
                }
                "hoiximme"
            },
            MapSectionName::hoixdpae => {
                proof {
                    reveal_strlit("hoixdpae");
                    assert("hoixdpae"@ =~= tag_text(*self));
                }
                "hoixdpae"
            },
            MapSectionName::hoixapme => {
                proof {
                    reveal_strlit("hoixapme");
                    assert("hoixapme"@ =~= tag_text(*self));
                }
                "hoixapme"
            },
            MapSectionName::hoixbpme => {
                proof {
                    reveal_strlit("hoixbpme");
                    assert("hoixbpme"@ =~= tag_text(*self));
                }
                "hoixbpme"
            },
            MapSectionName::hoixdtae => {
                proof {
                    reveal_strlit("hoixdtae");
                    assert("hoixdtae"@ =~= tag_text(*self));
                }
                "hoixdtae"
            },
            MapSectionName::hoix1tme => {
                proof {
                    reveal_strlit("hoix1tme");
                    assert("hoix1tme"@ =~= tag_text(*self));
                }
                "hoix1tme"
            },
            MapSectionName::hoix2tme => {
                proof {
                    reveal_strlit("hoix2tme");
                    assert("hoix2tme"@ =~= tag_text(*self));
                }
                "hoix2tme"
            },
            MapSectionName::hoix3tme => {
                proof {
                    reveal_strlit("hoix3tme");
                    assert("hoix3tme"@ =~= tag_text(*self));
                }
                "hoix3tme"
            },
            MapSectionName::hoix4tme => {
                proof {
                    reveal_strlit("hoix4tme");
                    assert("hoix4tme"@ =~= tag_text(*self));
                }
                "hoix4tme"
            },
            MapSectionName::hoixdlae => {
                proof {
                    reveal_strlit("hoixdlae");
                    assert("hoixdlae"@ =~= tag_text(*self));
                }
                "hoixdlae"
            },
            MapSectionName::hoixalme => {
                proof {
                    reveal_strlit("hoixalme");
                    assert("hoixalme"@ =~= tag_text(*self));
                }
                "hoixalme"
            },
            MapSectionName::hoixzisl => {
                proof {
                    reveal_strlit("hoixzisl");
                    assert("hoixzisl"@ =~= tag_text(*self));
                }
                "hoixzisl"
            },
        }
    }

    /// The section's place in the list of known sections.
    pub fn index(&self) -> (i: usize)
        ensures
            i == index_of(*self),
            i < SECTION_COUNT,
    {
        match self {
            MapSectionName::hoixehml => 0,
            MapSectionName::hoixapml => 1,
            MapSectionName::hoixbpml => 2,
            MapSectionName::hoixtlml => 3,
            MapSectionName::hoixvlml => 4,
            MapSectionName::hoixplml => 5,
            MapSectionName::hoixocml => 6,
            MapSectionName::hoixwtml => 7,
            MapSectionName::hoixsmml => 8,
            MapSectionName::hoixrpml => 9,
            MapSectionName::hoixbwml => 10,
            MapSectionName::hoixbbml => 11,
            MapSectionName::hoixorml => 12,
            MapSectionName::hoixbsml => 13,
            MapSectionName::hoixoaml => 14,
            MapSectionName::hoixrbme => 15,
            MapSectionName::hoix1mme => 16,
            MapSectionName::hoiximme => 17,
            MapSectionName::hoixdpae => 18,
            MapSectionName::hoixapme => 19,
            MapSectionName::hoixbpme => 20,
            MapSectionName::hoixdtae => 21,
            MapSectionName::hoix1tme => 22,
            MapSectionName::hoix2tme => 23,
            MapSectionName::hoix3tme => 24,
            MapSectionName::hoix4tme => 25,
            MapSectionName::hoixdlae => 26,
            MapSectionName::hoixalme => 27,
            MapSectionName::hoixzisl => 28,
        }
    }

    /// The codec that the section is decoded with.
    pub fn codec(&self) -> (codec: Codec)
        ensures
            codec == codec_of(*self),
    {
        match self {
            MapSectionName::hoixehml => Codec::ByteRle,
            MapSectionName::hoixapml => Codec::ByteRle,
            MapSectionName::hoixbpml => Codec::ByteRle,
            MapSectionName::hoixtlml => Codec::ByteRle,
            MapSectionName::hoixvlml => Codec::ByteRle,
            MapSectionName::hoixplml => Codec::ByteRle,
            MapSectionName::hoixocml => Codec::ByteRle,
            MapSectionName::hoixwtml => Codec::ByteRle,
            MapSectionName::hoixsmml => Codec::ByteRle,
            MapSectionName::hoixrpml => Codec::ByteRle,
            MapSectionName::hoixbwml => Codec::ByteRle,
            MapSectionName::hoixbbml => Codec::ByteRle,
            MapSectionName::hoixorml => Codec::ByteRle,
            MapSectionName::hoixbsml => Codec::ByteRle,
            MapSectionName::hoixoaml => Codec::WordRle,
            MapSectionName::hoixrbme => Codec::ByteRle,
            MapSectionName::hoix1mme => Codec::ByteRle,
            MapSectionName::hoiximme => Codec::ByteRle,
            MapSectionName::hoixdpae => Codec::Dictionary,
            MapSectionName::hoixapme => Codec::WordRle,
            MapSectionName::hoixbpme => Codec::WordRle,
            MapSectionName::hoixdtae => Codec::Dictionary,
            MapSectionName::hoix1tme => Codec::ByteRle,
            MapSectionName::hoix2tme => Codec::ByteRle,
            MapSectionName::hoix3tme => Codec::ByteRle,
            MapSectionName::hoix4tme => Codec::ByteRle,
            MapSectionName::hoixdlae => Codec::Dictionary,
            MapSectionName::hoixalme => Codec::Raw,
            MapSectionName::hoixzisl => Codec::Size,
        }
    }

    /// The section whose tag is `s`, if it is a known one.
    pub fn from_str(s: &str) -> (name: Option<MapSectionName>)
        ensures
            name == name_of_tag(s.spec_bytes()),
    {
        Self::from_tag(s.as_bytes())
    }

    /// The section that carries `tag`, if it is a known one.
    pub fn from_tag(tag: &[u8]) -> (name: Option<MapSectionName>)
        ensures
            name == name_of_tag(tag@),
    {
        if tag.len() != 8 || tag[0] != 0x68 || tag[1] != 0x6F || tag[2] != 0x69 || tag[3] != 0x78 {
            proof {
                assert forall|other: MapSectionName| tag_of(other) != tag@ by {
                    if tag_of(other) == tag@ {
                        assert(tag_of(other).len() == 8);
                        assert(tag_of(other)[0] == 0x68 && tag_of(other)[1] == 0x6F && tag_of(
                            other,
                        )[2] == 0x69 && tag_of(other)[3] == 0x78);
                    }
                }
            }
            return None;
        }
        let a: u8 = tag[4];
        let b: u8 = tag[5];
        let c: u8 = tag[6];
        let d: u8 = tag[7];
        let found: Option<MapSectionName> = Self::from_suffix(a, b, c, d);
        proof {
            match found {
                Some(hit) => {
                    assert(tag_of(hit) =~= tag@);
                    lemma_name_of_own_tag(hit);
                },
                None => {
                    assert forall|other: MapSectionName| tag_of(other) != tag@ by {
                        if tag_of(other) == tag@ {
                            let s = tag_suffix(other);
                            assert(tag_of(other)[4] == s.0 && tag_of(other)[5] == s.1 && tag_of(
                                other,
                            )[6] == s.2 && tag_of(other)[7] == s.3);
                        }
                    }
                },
            }
        }
        found
    }

    /// The section whose tag ends in the four bytes given.
    fn from_suffix(a: u8, b: u8, c: u8, d: u8) -> (name: Option<MapSectionName>)
        ensures
            name matches Some(hit) ==> tag_suffix(hit) == (a, b, c, d),
            name is None ==> forall|other: MapSectionName| tag_suffix(other) != (a, b, c, d),
    {
        if a == 0x65 && b == 0x68 && c == 0x6D && d == 0x6C {
            Some(MapSectionName::hoixehml)
        } else if a == 0x61 && b == 0x70 && c == 0x6D && d == 0x6C {
            Some(MapSectionName::hoixapml)
        } else if a == 0x62 && b == 0x70 && c == 0x6D && d == 0x6C {
            Some(MapSectionName::hoixbpml)
        } else if a == 0x74 && b == 0x6C && c == 0x6D && d == 0x6C {
            Some(MapSectionName::hoixtlml)
        } else if a == 0x76 && b == 0x6C && c == 0x6D && d == 0x6C {
            Some(MapSectionName::hoixvlml)
        } else if a == 0x70 && b == 0x6C && c == 0x6D && d == 0x6C {
            Some(MapSectionName::hoixplml)
        } else if a == 0x6F && b == 0x63 && c == 0x6D && d == 0x6C {
            Some(MapSectionName::hoixocml)
        } else if a == 0x77 && b == 0x74 && c == 0x6D && d == 0x6C {
            Some(MapSectionName::hoixwtml)
        } else if a == 0x73 && b == 0x6D && c == 0x6D && d == 0x6C {
            Some(MapSectionName::hoixsmml)
        } else if a == 0x72 && b == 0x70 && c == 0x6D && d == 0x6C {
            Some(MapSectionName::hoixrpml)
        } else if a == 0x62 && b == 0x77 && c == 0x6D && d == 0x6C {
            Some(MapSectionName::hoixbwml)
        } else if a == 0x62 && b == 0x62 && c == 0x6D && d == 0x6C {
            Some(MapSectionName::hoixbbml)
        } else if a == 0x6F && b == 0x72 && c == 0x6D && d == 0x6C {
            Some(MapSectionName::hoixorml)
        } else if a == 0x62 && b == 0x73 && c == 0x6D && d == 0x6C {
            Some(MapSectionName::hoixbsml)
        } else if a == 0x6F && b == 0x61 && c == 0x6D && d == 0x6C {
            Some(MapSectionName::hoixoaml)
        } else if a == 0x72 && b == 0x62 && c == 0x6D && d == 0x65 {
            Some(MapSectionName::hoixrbme)
        } else if a == 0x31 && b == 0x6D && c == 0x6D && d == 0x65 {
            Some(MapSectionName::hoix1mme)
        } else if a == 0x69 && b == 0x6D && c == 0x6D && d == 0x65 {
            Some(MapSectionName::hoiximme)
        } else if a == 0x64 && b == 0x70 && c == 0x61 && d == 0x65 {
            Some(MapSectionName::hoixdpae)
        } else if a == 0x61 && b == 0x70 && c == 0x6D && d == 0x65 {
            Some(MapSectionName::hoixapme)
        } else if a == 0x62 && b == 0x70 && c == 0x6D && d == 0x65 {
            Some(MapSectionName::hoixbpme)
        } else if a == 0x64 && b == 0x74 && c == 0x61 && d == 0x65 {
            Some(MapSectionName::hoixdtae)
        } else if a == 0x31 && b == 0x74 && c == 0x6D && d == 0x65 {
            Some(MapSectionName::hoix1tme)
        } else if a == 0x32 && b == 0x74 && c == 0x6D && d == 0x65 {
            Some(MapSectionName::hoix2tme)
        } else if a == 0x33 && b == 0x74 && c == 0x6D && d == 0x65 {
            Some(MapSectionName::hoix3tme)
        } else if a == 0x34 && b == 0x74 && c == 0x6D && d == 0x65 {
            Some(MapSectionName::hoix4tme)
        } else if a == 0x64 && b == 0x6C && c == 0x61 && d == 0x65 {
            Some(MapSectionName::hoixdlae)
        } else if a == 0x61 && b == 0x6C && c == 0x6D && d == 0x65 {
            Some(MapSectionName::hoixalme)
        } else if a == 0x7A && b == 0x69 && c == 0x73 && d == 0x6C {
            Some(MapSectionName::hoixzisl)
        } else {
            None
        }
    }
}

} // verus!
