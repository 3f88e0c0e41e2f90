//! Serialization of the map document to a human-readable, structured
//! text form, for display and copying. The output is a pure function
//! of the document: every field, nested layers and background layers
//! included, appears in declared order, so nothing is lost.

use vstd::prelude::*;
use crate::map::{LayerModel, MapLayerKindMeta, MapMeta, MapModel};

verus! {

/// The decimal digit character for `d`.
pub open spec fn spec_digit_char(d: nat) -> char {
    if d == 0 {
        '0'
    } else if d == 1 {
        '1'
    } else if d == 2 {
        '2'
    } else if d == 3 {
        '3'
    } else if d == 4 {
        '4'
    } else if d == 5 {
        '5'
    } else if d == 6 {
        '6'
    } else if d == 7 {
        '7'
    } else if d == 8 {
        '8'
    } else {
        '9'
    }
}

/// The decimal rendering of `n`, most significant digit first, no
/// leading zeros.
pub open spec fn spec_dec_digits(n: nat) -> Seq<char>
    decreases n,
{
    if n < 10 {
        seq![spec_digit_char(n)]
    } else {
        spec_dec_digits(n / 10).push(spec_digit_char(n % 10))
    }
}

/// The tag a layer kind is written as.
pub open spec fn spec_kind_text(kind: MapLayerKindMeta) -> Seq<char> {
    match kind {
        MapLayerKindMeta::Tiles(_) => "tiles"@,
        MapLayerKindMeta::Decorations(_) => "decorations"@,
        MapLayerKindMeta::Entities(_) => "entities"@,
    }
}

/// A layer's scene handle, or `~` while none is bound.
pub open spec fn spec_entity_text(entity: Option<usize>) -> Seq<char> {
    match entity {
        Some(e) => spec_dec_digits(e as nat),
        None => "~"@,
    }
}

/// One layer's list entry.
pub open spec fn spec_export_layer(l: LayerModel) -> Seq<char> {
    "- name: "@ + l.name + "\n  kind: "@ + spec_kind_text(l.kind) + "\n  entity: "@
        + spec_entity_text(l.entity) + "\n"@
}

/// One background layer's list entry.
pub open spec fn spec_export_background(image: Seq<char>) -> Seq<char> {
    "- image: "@ + image + "\n"@
}

/// All layer entries, in stack order.
pub open spec fn spec_concat_layers(layers: Seq<LayerModel>) -> Seq<char>
    decreases layers.len(),
{
    if layers.len() == 0 {
        Seq::empty()
    } else {
        spec_export_layer(layers.first()) + spec_concat_layers(layers.drop_first())
    }
}

/// All background entries, in declared order.
pub open spec fn spec_concat_backgrounds(backgrounds: Seq<Seq<char>>) -> Seq<char>
    decreases backgrounds.len(),
{
    if backgrounds.len() == 0 {
        Seq::empty()
    } else {
        spec_export_background(backgrounds.first()) + spec_concat_backgrounds(
            backgrounds.drop_first(),
        )
    }
}

/// The whole document.
pub open spec fn spec_export_map(m: MapModel) -> Seq<char> {
    "name: "@ + m.name + "\ngrid_size:\n  x: "@ + spec_dec_digits(m.grid_size.x as nat)
        + "\n  y: "@ + spec_dec_digits(m.grid_size.y as nat) + "\ntile_size:\n  x: "@
        + spec_dec_digits(m.tile_size.x as nat) + "\n  y: "@ + spec_dec_digits(
        m.tile_size.y as nat,
    ) + "\n"@ + (if m.background_layers.len() == 0 {
        "background_layers: []\n"@
    } else {
        "background_layers:\n"@ + spec_concat_backgrounds(m.background_layers)
    }) + (if m.layers.len() == 0 {
        "layers: []\n"@
    } else {
        "layers:\n"@ + spec_concat_layers(m.layers)
    })
}

proof fn lemma_concat_layers_push(layers: Seq<LayerModel>, l: LayerModel)
    ensures
        spec_concat_layers(layers.push(l)) == spec_concat_layers(layers) + spec_export_layer(l),
    decreases layers.len(),
{
    if layers.len() == 0 {
        let s = layers.push(l);
        assert(s.first() == l);
        assert(s.drop_first() =~= Seq::<LayerModel>::empty());
        assert(spec_concat_layers(s) == spec_export_layer(l) + spec_concat_layers(
            s.drop_first(),
        ));
        assert(spec_concat_layers(s.drop_first()) =~= Seq::<char>::empty());
        assert(spec_concat_layers(layers) =~= Seq::<char>::empty());
        assert(spec_concat_layers(layers.push(l)) =~= spec_concat_layers(layers)
            + spec_export_layer(l));
    } else {
        assert(layers.push(l).drop_first() =~= layers.drop_first().push(l));
        assert(layers.push(l).first() == layers.first());
        lemma_concat_layers_push(layers.drop_first(), l);
        assert(spec_concat_layers(layers.push(l)) =~= spec_concat_layers(layers)
            + spec_export_layer(l));
    }
}

proof fn lemma_concat_backgrounds_push(backgrounds: Seq<Seq<char>>, b: Seq<char>)
    ensures
        spec_concat_backgrounds(backgrounds.push(b)) == spec_concat_backgrounds(backgrounds)
            + spec_export_background(b),
    decreases backgrounds.len(),
{
    if backgrounds.len() == 0 {
        let s = backgrounds.push(b);
        assert(s.first() == b);
        assert(s.drop_first() =~= Seq::<Seq<char>>::empty());
        assert(spec_concat_backgrounds(s) == spec_export_background(b)
            + spec_concat_backgrounds(s.drop_first()));
        assert(spec_concat_backgrounds(s.drop_first()) =~= Seq::<char>::empty());
        assert(spec_concat_backgrounds(backgrounds) =~= Seq::<char>::empty());
        assert(spec_concat_backgrounds(backgrounds.push(b)) =~= spec_concat_backgrounds(
            backgrounds,
        ) + spec_export_background(b));
    } else {
        assert(backgrounds.push(b).drop_first() =~= backgrounds.drop_first().push(b));
        assert(backgrounds.push(b).first() == backgrounds.first());
        lemma_concat_backgrounds_push(backgrounds.drop_first(), b);
        assert(spec_concat_backgrounds(backgrounds.push(b)) =~= spec_concat_backgrounds(
            backgrounds,
        ) + spec_export_background(b));
    }
}

/// Appends one decimal digit.
fn push_digit(out: &mut String, d: u64)
    requires
        d < 10,
    ensures
        final(out)@ == old(out)@ + seq![spec_digit_char(d as nat)],
{
    proof {
        reveal_strlit("0");
        reveal_strlit("1");
        reveal_strlit("2");
        reveal_strlit("3");
        reveal_strlit("4");
        reveal_strlit("5");
        reveal_strlit("6");
        reveal_strlit("7");
        reveal_strlit("8");
        reveal_strlit("9");
    }
    match d {
        0 => out.append("0"),
        1 => out.append("1"),
        2 => out.append("2"),
        3 => out.append("3"),
        4 => out.append("4"),
        5 => out.append("5"),
        6 => out.append("6"),
        7 => out.append("7"),
        8 => out.append("8"),
        _ => out.append("9"),
    }
    proof {
        assert(out@ =~= old(out)@ + seq![spec_digit_char(d as nat)]);
    }
}

/// Appends `n` in decimal.
fn push_u64_dec(out: &mut String, n: u64)
    ensures
        final(out)@ == old(out)@ + spec_dec_digits(n as nat),
    decreases n,
{
    if n >= 10 {
        push_u64_dec(out, n / 10);
    }
    push_digit(out, n % 10);
    proof {
        assert(out@ =~= old(out)@ + spec_dec_digits(n as nat));
    }
}

/// Serializes the whole document; `r` is exactly the text
/// [`spec_export_map`] describes, so every field survives in order.
#[verifier::rlimit(100)]
pub fn export_map(map: &MapMeta) -> (r: String)
    ensures
        r@ == spec_export_map(map@),
{
    let ghost m = map@;
    let mut out = String::new();
    out.append("name: ");
    out.append(map.name.as_str());
    out.append("\ngrid_size:\n  x: ");
    push_u64_dec(&mut out, map.grid_size.x as u64);
    out.append("\n  y: ");
    push_u64_dec(&mut out, map.grid_size.y as u64);
    out.append("\ntile_size:\n  x: ");
    push_u64_dec(&mut out, map.tile_size.x as u64);
    out.append("\n  y: ");
    push_u64_dec(&mut out, map.tile_size.y as u64);
    out.append("\n");

    let ghost header = out@;

    if map.background_layers.len() == 0 {
        out.append("background_layers: []\n");
    } else {
        out.append("background_layers:\n");
        let n = map.background_layers.len();
        let mut i: usize = 0;
        proof {
            assert(m.background_layers.take(0) =~= Seq::<Seq<char>>::empty());
        }
        while i < n
            invariant
                n == map.background_layers@.len(),
                i <= n,
                m == map@,
                out@ == header + "background_layers:\n"@ + spec_concat_backgrounds(
                    m.background_layers.take(i as int),
                ),
            decreases n - i,
        {
            out.append("- image: ");
            out.append(map.background_layers[i].image.as_str());
            out.append("\n");
            proof {
                assert(m.background_layers.take(i + 1) =~= m.background_layers.take(
                    i as int,
                ).push(m.background_layers[i as int]));
                lemma_concat_backgrounds_push(
                    m.background_layers.take(i as int),
                    m.background_layers[i as int],
                );
                assert(out@ =~= header + "background_layers:\n"@ + spec_concat_backgrounds(
                    m.background_layers.take(i + 1),
                ));
            }
            i += 1;
        }
        proof {
            assert(m.background_layers.take(n as int) =~= m.background_layers);
        }
    }

    let ghost with_backgrounds = out@;

    if map.layers.len() == 0 {
        out.append("layers: []\n");
    } else {
        out.append("layers:\n");
        let n = map.layers.len();
        let mut i: usize = 0;
        proof {
            assert(m.layers.take(0) =~= Seq::<LayerModel>::empty());
        }
        while i < n
            invariant
                n == map.layers@.len(),
                i <= n,
                m == map@,
                out@ == with_backgrounds + "layers:\n"@ + spec_concat_layers(
                    m.layers.take(i as int),
                ),
            decreases n - i,
        {
            out.append("- name: ");
            out.append(map.layers[i].name.as_str());
            out.append("\n  kind: ");
            match &map.layers[i].kind {
                MapLayerKindMeta::Tiles(_) => out.append("tiles"),
                MapLayerKindMeta::Decorations(_) => out.append("decorations"),
                MapLayerKindMeta::Entities(_) => out.append("entities"),
            }
            out.append("\n  entity: ");
            match map.layers[i].entity {
                Some(e) => push_u64_dec(&mut out, e as u64),
                None => out.append("~"),
            }
            out.append("\n");
            proof {
                assert(m.layers.take(i + 1) =~= m.layers.take(i as int).push(
                    m.layers[i as int],
                ));
                lemma_concat_layers_push(m.layers.take(i as int), m.layers[i as int]);
                assert(out@ =~= with_backgrounds + "layers:\n"@ + spec_concat_layers(
                    m.layers.take(i + 1),
                ));
            }
            i += 1;
        }
        proof {
            assert(m.layers.take(n as int) =~= m.layers);
        }
    }

    proof {
        assert(out@ =~= spec_export_map(m));
    }
    out
}

} // verus!
