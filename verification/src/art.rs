//! The condition-art table: a pure lookup from a condition description (and
//! a day/night flag) to an ASCII glyph.

use vstd::prelude::*;

use crate::text::contains_seq;
use crate::text::str_contains;

verus! {

/// The smoke / haze / fog glyph.
pub open spec fn smoke_glyph() -> Seq<char> {
    r"
      (  .      )
     )           (              )
            .  '   .   '  .
  (    , )       (.   )  (   ',    )
   .' ) ( . )    ,  ( ,     )   ( .
). , ( .   (  ) ( , ')  .' (  ,    )
(_,) . ), ) _) _,')  (, ) '. )  ,. (' )
                "@
}

/// The clear-sky glyph.
pub open spec fn sunny_glyph() -> Seq<char> {
    r"
    \   /
     .-.
  ― (   ) ―
     `-'
    /   \
                "@
}

/// The cloud glyph.
pub open spec fn cloudy_glyph() -> Seq<char> {
    r"
      .--.
   .-(    ).
  (___.__)__)
                "@
}

/// The rain glyph.
pub open spec fn rainy_glyph() -> Seq<char> {
    r"
      .--.
   .-(    ).
  (___.__)__)
   ' ' ' ' '
                "@
}

/// The thunderstorm glyph.
pub open spec fn stormy_glyph() -> Seq<char> {
    r"
      .--.
   .-(    ).
  (___.__)__)
   ⚡⚡⚡⚡⚡
                "@
}

/// The snow glyph.
pub open spec fn snowy_glyph() -> Seq<char> {
    r"
      .--.
   .-(    ).
  (___.__)__)
   * * * * *
                "@
}

/// Shown when no glyph matches the description.
pub open spec fn no_art_text() -> Seq<char> {
    "No art available for this condition"@
}

/// The glyph chosen for a condition description. The first matching family
/// wins, in the order given here; the day/night flag is part of the lookup
/// interface, but the present table draws no day/night distinction, so the
/// result does not depend on it.
pub open spec fn art_spec(cond: Seq<char>) -> Seq<char> {
    if contains_seq(cond, "clear"@) {
        sunny_glyph()
    } else if contains_seq(cond, "clouds"@) {
        cloudy_glyph()
    } else if contains_seq(cond, "rain"@) || contains_seq(cond, "Dirzzle"@) {
        rainy_glyph()
    } else if contains_seq(cond, "thunderstorm"@) {
        stormy_glyph()
    } else if contains_seq(cond, "snow"@) {
        snowy_glyph()
    } else if contains_seq(cond, "smoke"@) || contains_seq(cond, "haze"@) || contains_seq(
        cond,
        "fog"@,
    ) {
        smoke_glyph()
    } else {
        no_art_text()
    }
}

/// Holds one glyph per condition family.
#[derive(Debug)]
pub struct AsciiArt {
    smoke: String,
    sunny: String,
    cloudy: String,
    rainy: String,
    stormy: String,
    snowy: String,
}

impl AsciiArt {
    /// The table holds exactly the six glyphs.
    pub closed spec fn wf(self) -> bool {
        &&& self.smoke@ == smoke_glyph()
        &&& self.sunny@ == sunny_glyph()
        &&& self.cloudy@ == cloudy_glyph()
        &&& self.rainy@ == rainy_glyph()
        &&& self.stormy@ == stormy_glyph()
        &&& self.snowy@ == snowy_glyph()
    }

    /// The glyph for `condition`: the table is total, an unrecognized
    /// description yields a placeholder line instead of failing.
    pub fn get_art(&self, condition: &str, is_day: bool) -> (r: &str)
        requires
            self.wf(),
        ensures
            r@ == art_spec(condition@),
    {
        if str_contains(condition, "clear") {
            self.sunny.as_str()
        } else if str_contains(condition, "clouds") {
            self.cloudy.as_str()
        } else if str_contains(condition, "rain") || str_contains(condition, "Dirzzle") {
            self.rainy.as_str()
        } else if str_contains(condition, "thunderstorm") {
            self.stormy.as_str()
        } else if str_contains(condition, "snow") {
            self.snowy.as_str()
        } else if str_contains(condition, "smoke") || str_contains(condition, "haze")
            || str_contains(condition, "fog") {
            self.smoke.as_str()
        } else {
            "No art available for this condition"
        }
    }
}

impl Default for AsciiArt {
    /// Builds the full table.
    fn default() -> (r: Self)
        ensures
            r.wf(),
    {
        AsciiArt {
            smoke: (r"
      (  .      )
     )           (              )
            .  '   .   '  .
  (    , )       (.   )  (   ',    )
   .' ) ( . )    ,  ( ,     )   ( .
). , ( .   (  ) ( , ')  .' (  ,    )
(_,) . ), ) _) _,')  (, ) '. )  ,. (' )
                ").to_owned(),
            sunny: (r"
    \   /
     .-.
  ― (   ) ―
     `-'
    /   \
                ").to_owned(),
            cloudy: (r"
      .--.
   .-(    ).
  (___.__)__)
                ").to_owned(),
            rainy: (r"
      .--.
   .-(    ).
  (___.__)__)
   ' ' ' ' '
                ").to_owned(),
            stormy: (r"
      .--.
   .-(    ).
  (___.__)__)
   ⚡⚡⚡⚡⚡
                ").to_owned(),
            snowy: (r"
      .--.
   .-(    ).
  (___.__)__)
   * * * * *
                ").to_owned(),
        }
    }
}

} // verus!
