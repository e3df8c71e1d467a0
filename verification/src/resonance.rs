use vstd::prelude::*;
use crate::text::{
    chars_eq_str, is_whitespace_char, lemma_normalized_ignores_padding_and_case, lemma_plain_text, lower_chars, lowered,
    trim_str, trimmed, uppered,
};

verus! {

/// The twelve musical prime factions.
#[derive(Debug, Clone, Copy, PartialEq, Eq, Hash, Structural)]
pub enum PrimeFaction {
    Pop,
    Rock,
    HipHopRap,
    Electronic,
    RnBSoulFunk,
    Classical,
    Jazz,
    CountryFolk,
    ReggaeCaribbeanAfrobeat,
    WorldTraditional,
    AmbientExperimental,
    Kazoom,
}

/// Every faction, in rank order.
pub open spec fn all_factions() -> Seq<PrimeFaction> {
    seq![
        PrimeFaction::Pop,
        PrimeFaction::Rock,
        PrimeFaction::HipHopRap,
        PrimeFaction::Electronic,
        PrimeFaction::RnBSoulFunk,
        PrimeFaction::Classical,
        PrimeFaction::Jazz,
        PrimeFaction::CountryFolk,
        PrimeFaction::ReggaeCaribbeanAfrobeat,
        PrimeFaction::WorldTraditional,
        PrimeFaction::AmbientExperimental,
        PrimeFaction::Kazoom,
    ]
}

/// A faction's position in the tie-breaking order.
pub open spec fn faction_rank(p: PrimeFaction) -> nat {
    match p {
        PrimeFaction::Pop => 0,
        PrimeFaction::Rock => 1,
        PrimeFaction::HipHopRap => 2,
        PrimeFaction::Electronic => 3,
        PrimeFaction::RnBSoulFunk => 4,
        PrimeFaction::Classical => 5,
        PrimeFaction::Jazz => 6,
        PrimeFaction::CountryFolk => 7,
        PrimeFaction::ReggaeCaribbeanAfrobeat => 8,
        PrimeFaction::WorldTraditional => 9,
        PrimeFaction::AmbientExperimental => 10,
        PrimeFaction::Kazoom => 11,
    }
}

/// The faction a normalized (trimmed, lower-case) label names.
pub open spec fn faction_for_normalized(s: Seq<char>) -> Option<PrimeFaction> {
    if s == "pop"@ || s == "aurielle"@ {
        Some(PrimeFaction::Pop)
    } else if s == "rock"@ || s == "lord riffion"@ {
        Some(PrimeFaction::Rock)
    } else if s == "hiphoprap"@ || s == "hip-hop / rap"@ || s == "hip-hop"@ || s == "rap"@
        || s == "mc baraka"@ {
        Some(PrimeFaction::HipHopRap)
    } else if s == "electronic"@ || s == "djinn"@ {
        Some(PrimeFaction::Electronic)
    } else if s == "rnbsoulfunk"@ || s == "r&b / soul / funk"@ || s == "r&b"@ || s == "soul"@
        || s == "funk"@ {
        Some(PrimeFaction::RnBSoulFunk)
    } else if s == "classical"@ || s == "octavius audius rudwig"@ {
        Some(PrimeFaction::Classical)
    } else if s == "jazz"@ || s == "blue rondo"@ {
        Some(PrimeFaction::Jazz)
    } else if s == "countryfolk"@ || s == "country / folk"@ || s == "country"@ || s == "folk"@
        || s == "dust strummer"@ {
        Some(PrimeFaction::CountryFolk)
    } else if s == "reggaecaribbeanafrobeat"@ || s == "reggae / caribbean / afrobeat"@
        || s == "reggae"@ || s == "caribbean"@ || s == "afrobeat"@ || s == "oba fyah irie"@ {
        Some(PrimeFaction::ReggaeCaribbeanAfrobeat)
    } else if s == "worldtraditional"@ || s == "world / traditional"@ || s == "world"@
        || s == "traditional"@ {
        Some(PrimeFaction::WorldTraditional)
    } else if s == "ambientexperimental"@ || s == "ambient / experimental"@ || s == "ambient"@
        || s == "experimental"@ || s == "aetherion"@ || s == "cinematic"@ {
        Some(PrimeFaction::AmbientExperimental)
    } else if s == "playtoycartoon"@ || s == "play / toy / cartoon"@ || s == "play"@
        || s == "toy"@ || s == "cartoon"@ || s == "kazoom"@ {
        Some(PrimeFaction::Kazoom)
    } else {
        None
    }
}

/// The faction a label names, ignoring surrounding whitespace and ASCII case.
pub open spec fn faction_for_label(label: Seq<char>) -> Option<PrimeFaction> {
    faction_for_normalized(lowered(trimmed(label)))
}

impl PrimeFaction {
    /// Every faction, in rank order.
    pub fn all() -> (r: [Self; 12])
        ensures
            r@ == all_factions(),
    {
        let r = [
            PrimeFaction::Pop,
            PrimeFaction::Rock,
            PrimeFaction::HipHopRap,
            PrimeFaction::Electronic,
            PrimeFaction::RnBSoulFunk,
            PrimeFaction::Classical,
            PrimeFaction::Jazz,
            PrimeFaction::CountryFolk,
            PrimeFaction::ReggaeCaribbeanAfrobeat,
            PrimeFaction::WorldTraditional,
            PrimeFaction::AmbientExperimental,
            PrimeFaction::Kazoom,
        ];
        assert(r@ =~= all_factions());
        r
    }

    /// The faction's rank, used to break ties between equally resonant factions.
    pub fn rank(self) -> (r: u8)
        ensures
            r == faction_rank(self),
    {
        match self {
            PrimeFaction::Pop => 0,
            PrimeFaction::Rock => 1,
            PrimeFaction::HipHopRap => 2,
            PrimeFaction::Electronic => 3,
            PrimeFaction::RnBSoulFunk => 4,
            PrimeFaction::Classical => 5,
            PrimeFaction::Jazz => 6,
            PrimeFaction::CountryFolk => 7,
            PrimeFaction::ReggaeCaribbeanAfrobeat => 8,
            PrimeFaction::WorldTraditional => 9,
            PrimeFaction::AmbientExperimental => 10,
            PrimeFaction::Kazoom => 11,
        }
    }

    /// Parses a faction name, genre or character name.
    pub fn from_label(label: &str) -> (r: Option<Self>)
        ensures
            r == faction_for_label(label@),
    {
        let s = lower_chars(trim_str(label));
        if chars_eq_str(&s, "pop") || chars_eq_str(&s, "aurielle") {
            Some(PrimeFaction::Pop)
        } else if chars_eq_str(&s, "rock") || chars_eq_str(&s, "lord riffion") {
            Some(PrimeFaction::Rock)
        } else if chars_eq_str(&s, "hiphoprap") || chars_eq_str(&s, "hip-hop / rap")
            || chars_eq_str(&s, "hip-hop") || chars_eq_str(&s, "rap")
            || chars_eq_str(&s, "mc baraka") {
            Some(PrimeFaction::HipHopRap)
        } else if chars_eq_str(&s, "electronic") || chars_eq_str(&s, "djinn") {
            Some(PrimeFaction::Electronic)
        } else if chars_eq_str(&s, "rnbsoulfunk") || chars_eq_str(&s, "r&b / soul / funk")
            || chars_eq_str(&s, "r&b") || chars_eq_str(&s, "soul") || chars_eq_str(&s, "funk") {
            Some(PrimeFaction::RnBSoulFunk)
        } else if chars_eq_str(&s, "classical") || chars_eq_str(&s, "octavius audius rudwig") {
            Some(PrimeFaction::Classical)
        } else if chars_eq_str(&s, "jazz") || chars_eq_str(&s, "blue rondo") {
            Some(PrimeFaction::Jazz)
        } else if chars_eq_str(&s, "countryfolk") || chars_eq_str(&s, "country / folk")
            || chars_eq_str(&s, "country") || chars_eq_str(&s, "folk")
            || chars_eq_str(&s, "dust strummer") {
            Some(PrimeFaction::CountryFolk)
        } else if chars_eq_str(&s, "reggaecaribbeanafrobeat")
            || chars_eq_str(&s, "reggae / caribbean / afrobeat") || chars_eq_str(&s, "reggae")
            || chars_eq_str(&s, "caribbean") || chars_eq_str(&s, "afrobeat")
            || chars_eq_str(&s, "oba fyah irie") {
            Some(PrimeFaction::ReggaeCaribbeanAfrobeat)
        } else if chars_eq_str(&s, "worldtraditional") || chars_eq_str(&s, "world / traditional")
            || chars_eq_str(&s, "world") || chars_eq_str(&s, "traditional") {
            Some(PrimeFaction::WorldTraditional)
        } else if chars_eq_str(&s, "ambientexperimental")
            || chars_eq_str(&s, "ambient / experimental") || chars_eq_str(&s, "ambient")
            || chars_eq_str(&s, "experimental") || chars_eq_str(&s, "aetherion")
            || chars_eq_str(&s, "cinematic") {
            Some(PrimeFaction::AmbientExperimental)
        } else if chars_eq_str(&s, "playtoycartoon") || chars_eq_str(&s, "play / toy / cartoon")
            || chars_eq_str(&s, "play") || chars_eq_str(&s, "toy") || chars_eq_str(&s, "cartoon")
            || chars_eq_str(&s, "kazoom") {
            Some(PrimeFaction::Kazoom)
        } else {
            None
        }
    }
}

/// Each faction stands in `all()` at the position of its rank, and no other
/// faction shares that rank.
pub proof fn lemma_rank_indexes_all(p: PrimeFaction, q: PrimeFaction)
    ensures
        faction_rank(p) < all_factions().len(),
        all_factions()[faction_rank(p) as int] == p,
        faction_rank(p) == faction_rank(q) ==> p == q,
{
}

/// A label names the same faction, if any, with whitespace around it and in
/// any ASCII case.
pub proof fn lemma_label_ignores_padding_and_case(pre: Seq<char>, label: Seq<char>, post: Seq<char>)
    requires
        forall|k: int| 0 <= k < pre.len() ==> is_whitespace_char(#[trigger] pre[k]),
        forall|k: int| 0 <= k < post.len() ==> is_whitespace_char(#[trigger] post[k]),
    ensures
        faction_for_label(pre + uppered(label) + post) == faction_for_label(label),
        faction_for_label(pre + lowered(label) + post) == faction_for_label(label),
        faction_for_label(pre + label + post) == faction_for_label(label),
{
    lemma_normalized_ignores_padding_and_case(pre, label, post);
}

/// Every name in the faction table, whatever field of the faction it comes
/// from (its combined name, each genre word of it, or its character), names
/// that faction.
pub proof fn lemma_label_table()
    ensures
        faction_for_label("pop"@) == Some(PrimeFaction::Pop),
        faction_for_label("aurielle"@) == Some(PrimeFaction::Pop),
        faction_for_label("rock"@) == Some(PrimeFaction::Rock),
        faction_for_label("lord riffion"@) == Some(PrimeFaction::Rock),
        faction_for_label("hiphoprap"@) == Some(PrimeFaction::HipHopRap),
        faction_for_label("hip-hop / rap"@) == Some(PrimeFaction::HipHopRap),
        faction_for_label("hip-hop"@) == Some(PrimeFaction::HipHopRap),
        faction_for_label("rap"@) == Some(PrimeFaction::HipHopRap),
        faction_for_label("mc baraka"@) == Some(PrimeFaction::HipHopRap),
        faction_for_label("electronic"@) == Some(PrimeFaction::Electronic),
        faction_for_label("djinn"@) == Some(PrimeFaction::Electronic),
        faction_for_label("rnbsoulfunk"@) == Some(PrimeFaction::RnBSoulFunk),
        faction_for_label("r&b / soul / funk"@) == Some(PrimeFaction::RnBSoulFunk),
        faction_for_label("r&b"@) == Some(PrimeFaction::RnBSoulFunk),
        faction_for_label("soul"@) == Some(PrimeFaction::RnBSoulFunk),
        faction_for_label("funk"@) == Some(PrimeFaction::RnBSoulFunk),
        faction_for_label("classical"@) == Some(PrimeFaction::Classical),
        faction_for_label("octavius audius rudwig"@) == Some(PrimeFaction::Classical),
        faction_for_label("jazz"@) == Some(PrimeFaction::Jazz),
        faction_for_label("blue rondo"@) == Some(PrimeFaction::Jazz),
        faction_for_label("countryfolk"@) == Some(PrimeFaction::CountryFolk),
        faction_for_label("country / folk"@) == Some(PrimeFaction::CountryFolk),
        faction_for_label("country"@) == Some(PrimeFaction::CountryFolk),
        faction_for_label("folk"@) == Some(PrimeFaction::CountryFolk),
        faction_for_label("dust strummer"@) == Some(PrimeFaction::CountryFolk),
        faction_for_label("reggaecaribbeanafrobeat"@) == Some(PrimeFaction::ReggaeCaribbeanAfrobeat),
        faction_for_label("reggae / caribbean / afrobeat"@) == Some(PrimeFaction::ReggaeCaribbeanAfrobeat),
        faction_for_label("reggae"@) == Some(PrimeFaction::ReggaeCaribbeanAfrobeat),
        faction_for_label("caribbean"@) == Some(PrimeFaction::ReggaeCaribbeanAfrobeat),
        faction_for_label("afrobeat"@) == Some(PrimeFaction::ReggaeCaribbeanAfrobeat),
        faction_for_label("oba fyah irie"@) == Some(PrimeFaction::ReggaeCaribbeanAfrobeat),
        faction_for_label("worldtraditional"@) == Some(PrimeFaction::WorldTraditional),
        faction_for_label("world / traditional"@) == Some(PrimeFaction::WorldTraditional),
        faction_for_label("world"@) == Some(PrimeFaction::WorldTraditional),
        faction_for_label("traditional"@) == Some(PrimeFaction::WorldTraditional),
        faction_for_label("ambientexperimental"@) == Some(PrimeFaction::AmbientExperimental),
        faction_for_label("ambient / experimental"@) == Some(PrimeFaction::AmbientExperimental),
        faction_for_label("ambient"@) == Some(PrimeFaction::AmbientExperimental),
        faction_for_label("experimental"@) == Some(PrimeFaction::AmbientExperimental),
        faction_for_label("aetherion"@) == Some(PrimeFaction::AmbientExperimental),
        faction_for_label("cinematic"@) == Some(PrimeFaction::AmbientExperimental),
        faction_for_label("playtoycartoon"@) == Some(PrimeFaction::Kazoom),
        faction_for_label("play / toy / cartoon"@) == Some(PrimeFaction::Kazoom),
        faction_for_label("play"@) == Some(PrimeFaction::Kazoom),
        faction_for_label("toy"@) == Some(PrimeFaction::Kazoom),
        faction_for_label("cartoon"@) == Some(PrimeFaction::Kazoom),
        faction_for_label("kazoom"@) == Some(PrimeFaction::Kazoom),
{
    reveal_strlit("pop");
    reveal_strlit("aurielle");
    reveal_strlit("rock");
    reveal_strlit("lord riffion");
    reveal_strlit("hiphoprap");
    reveal_strlit("hip-hop / rap");
    reveal_strlit("hip-hop");
    reveal_strlit("rap");
    reveal_strlit("mc baraka");
    reveal_strlit("electronic");
    reveal_strlit("djinn");
    reveal_strlit("rnbsoulfunk");
    reveal_strlit("r&b / soul / funk");
    reveal_strlit("r&b");
    reveal_strlit("soul");
    reveal_strlit("funk");
    reveal_strlit("classical");
    reveal_strlit("octavius audius rudwig");
    reveal_strlit("jazz");
    reveal_strlit("blue rondo");
    reveal_strlit("countryfolk");
    reveal_strlit("country / folk");
    reveal_strlit("country");
    reveal_strlit("folk");
    reveal_strlit("dust strummer");
    reveal_strlit("reggaecaribbeanafrobeat");
    reveal_strlit("reggae / caribbean / afrobeat");
    reveal_strlit("reggae");
    reveal_strlit("caribbean");
    reveal_strlit("afrobeat");
    reveal_strlit("oba fyah irie");
    reveal_strlit("worldtraditional");
    reveal_strlit("world / traditional");
    reveal_strlit("world");
    reveal_strlit("traditional");
    reveal_strlit("ambientexperimental");
    reveal_strlit("ambient / experimental");
    reveal_strlit("ambient");
    reveal_strlit("experimental");
    reveal_strlit("aetherion");
    reveal_strlit("cinematic");
    reveal_strlit("playtoycartoon");
    reveal_strlit("play / toy / cartoon");
    reveal_strlit("play");
    reveal_strlit("toy");
    reveal_strlit("cartoon");
    reveal_strlit("kazoom");
    assert("folk"@[0] != "rock"@[0] && "folk"@[0] != "soul"@[0] && "folk"@[1] != "funk"@[1]
        && "folk"@[0] != "jazz"@[0]);
    lemma_plain_text("pop"@);
    lemma_plain_text("aurielle"@);
    lemma_plain_text("rock"@);
    lemma_plain_text("lord riffion"@);
    lemma_plain_text("hiphoprap"@);
    lemma_plain_text("hip-hop / rap"@);
    lemma_plain_text("hip-hop"@);
    lemma_plain_text("rap"@);
    lemma_plain_text("mc baraka"@);
    lemma_plain_text("electronic"@);
    lemma_plain_text("djinn"@);
    lemma_plain_text("rnbsoulfunk"@);
    lemma_plain_text("r&b / soul / funk"@);
    lemma_plain_text("r&b"@);
    lemma_plain_text("soul"@);
    lemma_plain_text("funk"@);
    lemma_plain_text("classical"@);
    lemma_plain_text("octavius audius rudwig"@);
    lemma_plain_text("jazz"@);
    lemma_plain_text("blue rondo"@);
    lemma_plain_text("countryfolk"@);
    lemma_plain_text("country / folk"@);
    lemma_plain_text("country"@);
    lemma_plain_text("folk"@);
    lemma_plain_text("dust strummer"@);
    lemma_plain_text("reggaecaribbeanafrobeat"@);
    lemma_plain_text("reggae / caribbean / afrobeat"@);
    lemma_plain_text("reggae"@);
    lemma_plain_text("caribbean"@);
    lemma_plain_text("afrobeat"@);
    lemma_plain_text("oba fyah irie"@);
    lemma_plain_text("worldtraditional"@);
    lemma_plain_text("world / traditional"@);
    lemma_plain_text("world"@);
    lemma_plain_text("traditional"@);
    lemma_plain_text("ambientexperimental"@);
    lemma_plain_text("ambient / experimental"@);
    lemma_plain_text("ambient"@);
    lemma_plain_text("experimental"@);
    lemma_plain_text("aetherion"@);
    lemma_plain_text("cinematic"@);
    lemma_plain_text("playtoycartoon"@);
    lemma_plain_text("play / toy / cartoon"@);
    lemma_plain_text("play"@);
    lemma_plain_text("toy"@);
    lemma_plain_text("cartoon"@);
    lemma_plain_text("kazoom"@);
}

/// Only the names in the faction table name a faction, and each names the
/// faction the table gives it.
pub proof fn lemma_label_table_complete(label: Seq<char>, p: PrimeFaction)
    requires
        faction_for_label(label) == Some(p),
    ensures
        ({
            let n = lowered(trimmed(label));
            ||| n == "pop"@ && p == PrimeFaction::Pop
            ||| n == "aurielle"@ && p == PrimeFaction::Pop
            ||| n == "rock"@ && p == PrimeFaction::Rock
            ||| n == "lord riffion"@ && p == PrimeFaction::Rock
            ||| n == "hiphoprap"@ && p == PrimeFaction::HipHopRap
            ||| n == "hip-hop / rap"@ && p == PrimeFaction::HipHopRap
            ||| n == "hip-hop"@ && p == PrimeFaction::HipHopRap
            ||| n == "rap"@ && p == PrimeFaction::HipHopRap
            ||| n == "mc baraka"@ && p == PrimeFaction::HipHopRap
            ||| n == "electronic"@ && p == PrimeFaction::Electronic
            ||| n == "djinn"@ && p == PrimeFaction::Electronic
            ||| n == "rnbsoulfunk"@ && p == PrimeFaction::RnBSoulFunk
            ||| n == "r&b / soul / funk"@ && p == PrimeFaction::RnBSoulFunk
            ||| n == "r&b"@ && p == PrimeFaction::RnBSoulFunk
            ||| n == "soul"@ && p == PrimeFaction::RnBSoulFunk
            ||| n == "funk"@ && p == PrimeFaction::RnBSoulFunk
            ||| n == "classical"@ && p == PrimeFaction::Classical
            ||| n == "octavius audius rudwig"@ && p == PrimeFaction::Classical
            ||| n == "jazz"@ && p == PrimeFaction::Jazz
            ||| n == "blue rondo"@ && p == PrimeFaction::Jazz
            ||| n == "countryfolk"@ && p == PrimeFaction::CountryFolk
            ||| n == "country / folk"@ && p == PrimeFaction::CountryFolk
            ||| n == "country"@ && p == PrimeFaction::CountryFolk
            ||| n == "folk"@ && p == PrimeFaction::CountryFolk
            ||| n == "dust strummer"@ && p == PrimeFaction::CountryFolk
            ||| n == "reggaecaribbeanafrobeat"@ && p == PrimeFaction::ReggaeCaribbeanAfrobeat
            ||| n == "reggae / caribbean / afrobeat"@ && p == PrimeFaction::ReggaeCaribbeanAfrobeat
            ||| n == "reggae"@ && p == PrimeFaction::ReggaeCaribbeanAfrobeat
            ||| n == "caribbean"@ && p == PrimeFaction::ReggaeCaribbeanAfrobeat
            ||| n == "afrobeat"@ && p == PrimeFaction::ReggaeCaribbeanAfrobeat
            ||| n == "oba fyah irie"@ && p == PrimeFaction::ReggaeCaribbeanAfrobeat
            ||| n == "worldtraditional"@ && p == PrimeFaction::WorldTraditional
            ||| n == "world / traditional"@ && p == PrimeFaction::WorldTraditional
            ||| n == "world"@ && p == PrimeFaction::WorldTraditional
            ||| n == "traditional"@ && p == PrimeFaction::WorldTraditional
            ||| n == "ambientexperimental"@ && p == PrimeFaction::AmbientExperimental
            ||| n == "ambient / experimental"@ && p == PrimeFaction::AmbientExperimental
            ||| n == "ambient"@ && p == PrimeFaction::AmbientExperimental
            ||| n == "experimental"@ && p == PrimeFaction::AmbientExperimental
            ||| n == "aetherion"@ && p == PrimeFaction::AmbientExperimental
            ||| n == "cinematic"@ && p == PrimeFaction::AmbientExperimental
            ||| n == "playtoycartoon"@ && p == PrimeFaction::Kazoom
            ||| n == "play / toy / cartoon"@ && p == PrimeFaction::Kazoom
            ||| n == "play"@ && p == PrimeFaction::Kazoom
            ||| n == "toy"@ && p == PrimeFaction::Kazoom
            ||| n == "cartoon"@ && p == PrimeFaction::Kazoom
            ||| n == "kazoom"@ && p == PrimeFaction::Kazoom
        }),
{
}

} // verus!
