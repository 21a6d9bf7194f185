use vstd::prelude::*;

verus! {

/// The condition under which an entity's glyphs cannot be emitted.
#[derive(Clone, Copy, Debug, PartialEq, Eq, Structural)]
pub enum ExtractError {
    /// The glyph at `glyph` refers to a section that the text does not have.
    SectionOutOfRange { glyph: usize },
}

/// Whether every glyph refers to one of `n_sections` sections.
pub open spec fn sections_in_range(glyph_sections: Seq<usize>, n_sections: nat) -> bool {
    forall|i: int| 0 <= i < glyph_sections.len() ==> (#[trigger] glyph_sections[i]) < n_sections
}

/// The colour of each glyph, in layout order: that of the section it belongs to.
pub open spec fn colors_of<C>(section_colors: Seq<C>, glyph_sections: Seq<usize>) -> Seq<C> {
    glyph_sections.map_values(|s: usize| section_colors[s as int])
}

/// Picks the colour of each quad that an entity emits this frame, one per
/// glyph in layout order. An entity that is not visible, or that has no
/// layout yet, emits nothing. `section_colors` holds the colour of each
/// section of the entity's text; `glyph_sections` the section of each glyph
/// of its latest layout. A glyph whose section the text does not have is an
/// error, reported with the first such glyph.
pub fn glyph_colors<C: Copy>(
    visible: bool,
    section_colors: &Vec<C>,
    glyph_sections: Option<&Vec<usize>>,
) -> (r: Result<Vec<C>, ExtractError>)
    ensures
        !visible || glyph_sections is None ==> (r matches Ok(v) && v@.len() == 0),
        visible && glyph_sections is Some ==> match r {
            Ok(v) => sections_in_range(glyph_sections.unwrap()@, section_colors@.len())
                && v@ == colors_of(section_colors@, glyph_sections.unwrap()@),
            Err(ExtractError::SectionOutOfRange { glyph }) => {
                &&& glyph < glyph_sections.unwrap()@.len()
                &&& glyph_sections.unwrap()@[glyph as int] >= section_colors@.len()
                &&& sections_in_range(glyph_sections.unwrap()@.take(glyph as int), section_colors@.len())
            },
        },
{
    if !visible {
        return Ok(Vec::new());
    }
    let g = match glyph_sections {
        Some(g) => g,
        None => {
            return Ok(Vec::new());
        },
    };
    let mut out: Vec<C> = Vec::new();
    // The colour of the section of the previous glyph: consecutive glyphs
    // mostly share a section.
    let mut current: Option<(usize, C)> = None;
    let n = g.len();
    let mut i: usize = 0;
    while i < n
        invariant
            visible,
            glyph_sections == Some(g),
            n == g@.len(),
            0 <= i <= n,
            sections_in_range(g@.take(i as int), section_colors@.len()),
            out@ == colors_of(section_colors@, g@.take(i as int)),
            match current {
                Some((s, c)) => s < section_colors@.len() && c == section_colors@[s as int],
                None => true,
            },
        decreases n - i,
    {
        let s = g[i];
        let color = match current {
            Some((cs, c)) if cs == s => c,
            _ => {
                if s >= section_colors.len() {
                    return Err(ExtractError::SectionOutOfRange { glyph: i });
                }
                let c = section_colors[s];
                current = Some((s, c));
                c
            },
        };
        out.push(color);
        proof {
            assert(g@.take(i + 1) =~= g@.take(i as int).push(s));
        }
        i = i + 1;
    }
    proof {
        assert(g@.take(n as int) =~= g@);
    }
    Ok(out)
}

} // verus!
