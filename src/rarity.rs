use vstd::prelude::*;

verus! {

/// The closed vocabulary of rarity classes.
#[derive(Debug, Clone, Copy, PartialEq, Eq, Structural)]
pub enum Tier {
    UR,
    SSR,
    ACE,
    HR,
    SR,
    SAR,
    CSR,
    AR,
    CHR,
    S,
    A,
    H,
    K,
    PR,
    RRR,
    RR,
    R,
    U,
    C,
    TR,
}

/// A rarity classification: a known class, or the raw label when it names
/// none, kept so that it can be inspected.
#[derive(Debug, Clone)]
pub enum Rarity {
    Known(Tier),
    Unknown(String),
}

/// The class that a rarity label names, if it names one.
pub open spec fn tier_of(label: Seq<char>) -> Option<Tier> {
    if label == "Ultra Rare (UR)"@ {
        Some(Tier::UR)
    } else if label == "Shiny Super Rare (SSR)"@ {
        Some(Tier::SSR)
    } else if label == "ACE SPEC Rare (ACE)"@ {
        Some(Tier::ACE)
    } else if label == "Hyper Rare (HR)"@ {
        Some(Tier::HR)
    } else if label == "Super Rare (SR)"@ {
        Some(Tier::SR)
    } else if label == "Special Art Rare (SAR)"@ {
        Some(Tier::SAR)
    } else if label == "Character Super Rare (CSR)"@ {
        Some(Tier::CSR)
    } else if label == "Art Rare (AR)"@ {
        Some(Tier::AR)
    } else if label == "Character Rare (CHR)"@ {
        Some(Tier::CHR)
    } else if label == "Shiny (S)"@ {
        Some(Tier::S)
    } else if label == "Amazing Rare"@ {
        Some(Tier::A)
    } else if label == "Rare Holo"@ {
        Some(Tier::H)
    } else if label == "Radiant Rare (K)"@ {
        Some(Tier::K)
    } else if label == "Promo"@ {
        Some(Tier::PR)
    } else if label == "Triple Rare (RRR)"@ {
        Some(Tier::RRR)
    } else if label == "Double Rare (RR)"@ {
        Some(Tier::RR)
    } else if label == "Rare (R)"@ {
        Some(Tier::R)
    } else if label == "Uncommon (U)"@ {
        Some(Tier::U)
    } else if label == "Common (C)"@ {
        Some(Tier::C)
    } else if label == "Trainer Rare (TR)"@ {
        Some(Tier::TR)
    } else {
        None
    }
}

/// The mathematical reading of a `Rarity`.
pub enum RarityView {
    Known(Tier),
    Unknown(Seq<char>),
}

impl View for Rarity {
    type V = RarityView;

    open spec fn view(&self) -> RarityView {
        match self {
            Rarity::Known(t) => RarityView::Known(*t),
            Rarity::Unknown(s) => RarityView::Unknown(s@),
        }
    }
}

/// What a rarity label classifies as: its class, or else the label itself.
pub open spec fn rarity_of(label: Seq<char>) -> RarityView {
    match tier_of(label) {
        Some(t) => RarityView::Known(t),
        None => RarityView::Unknown(label),
    }
}

/// Character-wise equality of two strings.
pub fn same_text(a: &str, b: &str) -> (r: bool)
    ensures
        r == (a@ == b@),
{
    let n = a.unicode_len();
    if n != b.unicode_len() {
        return false;
    }
    let mut i: usize = 0;
    while i < n
        invariant
            n == a@.len(),
            n == b@.len(),
            i <= n,
            forall|j: int| 0 <= j < i ==> a@[j] == b@[j],
        decreases n - i,
    {
        if a.get_char(i) != b.get_char(i) {
            return false;
        }
        i = i + 1;
    }
    assert(a@ =~= b@);
    true
}

impl Rarity {
    /// Classifies a rarity label; a label outside the vocabulary is kept
    /// whole as `Unknown`.
    pub fn from_label(label: &str) -> (r: Rarity)
        ensures
            r@ == rarity_of(label@),
    {
        let tier = if same_text(label, "Ultra Rare (UR)") {
            Tier::UR
        } else if same_text(label, "Shiny Super Rare (SSR)") {
            Tier::SSR
        } else if same_text(label, "ACE SPEC Rare (ACE)") {
            Tier::ACE
        } else if same_text(label, "Hyper Rare (HR)") {
            Tier::HR
        } else if same_text(label, "Super Rare (SR)") {
            Tier::SR
        } else if same_text(label, "Special Art Rare (SAR)") {
            Tier::SAR
        } else if same_text(label, "Character Super Rare (CSR)") {
            Tier::CSR
        } else if same_text(label, "Art Rare (AR)") {
            Tier::AR
        } else if same_text(label, "Character Rare (CHR)") {
            Tier::CHR
        } else if same_text(label, "Shiny (S)") {
            Tier::S
        } else if same_text(label, "Amazing Rare") {
            Tier::A
        } else if same_text(label, "Rare Holo") {
            Tier::H
        } else if same_text(label, "Radiant Rare (K)") {
            Tier::K
        } else if same_text(label, "Promo") {
            Tier::PR
        } else if same_text(label, "Triple Rare (RRR)") {
            Tier::RRR
        } else if same_text(label, "Double Rare (RR)") {
            Tier::RR
        } else if same_text(label, "Rare (R)") {
            Tier::R
        } else if same_text(label, "Uncommon (U)") {
            Tier::U
        } else if same_text(label, "Common (C)") {
            Tier::C
        } else if same_text(label, "Trainer Rare (TR)") {
            Tier::TR
        } else {
            return Rarity::Unknown(String::from_str(label));
        };
        Rarity::Known(tier)
    }

    pub fn is_known(&self) -> (r: bool)
        ensures
            r == (self is Known),
    {
        match self {
            Rarity::Known(_) => true,
            Rarity::Unknown(_) => false,
        }
    }
}

} // verus!
