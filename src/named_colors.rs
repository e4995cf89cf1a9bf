//! The fixed vocabulary of named colors: the extended web palette, each
//! name paired with its `#RRGGBB` notation.

use vstd::prelude::*;
use vstd::string::StringSliceAdditionalSpecFns;

use crate::colors::{is_hex_color, is_hex_digit};

verus! {

/// Number of entries in the named-color vocabulary.
pub const NUM_COLORS: usize = 148;

/// The named-color vocabulary as (lowercase name, hex notation) pairs.
pub open spec fn named_color_data() -> Seq<(&'static str, &'static str)> {
    seq![
        ("aliceblue", "#F0F8FF"),
        ("antiquewhite", "#FAEBD7"),
        ("aqua", "#00FFFF"),
        ("aquamarine", "#7FFFD4"),
        ("azure", "#F0FFFF"),
        ("beige", "#F5F5DC"),
        ("bisque", "#FFE4C4"),
        ("black", "#000000"),
        ("blanchedalmond", "#FFEBCD"),
        ("blue", "#0000FF"),
        ("blueviolet", "#8A2BE2"),
        ("brown", "#A52A2A"),
        ("burlywood", "#DED887"),
        ("cadetblue", "#5F9EA0"),
        ("chartreuse", "#7FFF00"),
        ("chocolate", "#D2691E"),
        ("coral", "#FF7F50"),
        ("cornflowerblue", "#6495ED"),
        ("cornsilk", "#FFF8DC"),
        ("crimson", "#DC143C"),
        ("cyan", "#00FFFF"),
        ("darkblue", "#00008B"),
        ("darkcyan", "#008B8B"),
        ("darkgoldenrod", "#B8860B"),
        ("darkgray", "#A9A9A9"),
        ("darkgreen", "#006400"),
        ("darkgrey", "#A9A9A9"),
        ("darkkhaki", "#BDB76B"),
        ("darkmagenta", "#8B008B"),
        ("darkolivegreen", "#556B2F"),
        ("darkorange", "#FF8C00"),
        ("darkorchid", "#9932CC"),
        ("darkred", "#8B0000"),
        ("darksalmon", "#E9967A"),
        ("darkseagreen", "#8FBC8F"),
        ("darkslateblue", "#483D8B"),
        ("darkslategray", "#2F4F4F"),
        ("darkslategrey", "#2F4F4F"),
        ("darkturquoise", "#00CED1"),
        ("darkviolet", "#9400D3"),
        ("deeppink", "#FF1493"),
        ("deepskyblue", "#00BFFF"),
        ("dimgray", "#696969"),
        ("dimgrey", "#696969"),
        ("dodgerblue", "#1E90FF"),
        ("firebrick", "#B22222"),
        ("floralwhite", "#FFFAF0"),
        ("forestgreen", "#228B22"),
        ("fuchsia", "#FF00FF"),
        ("gainsboro", "#DCDCDC"),
        ("ghostwhite", "#F8F8FF"),
        ("gold", "#FFD700"),
        ("goldenrod", "#DAA520"),
        ("gray", "#808080"),
        ("green", "#008000"),
        ("greenyellow", "#ADFF2F"),
        ("grey", "#808080"),
        ("honeydew", "#F0FFF0"),
        ("hotpink", "#FF69B4"),
        ("indianred", "#CD5C5C"),
        ("indigo", "#4B0082"),
        ("ivory", "#FFFFF0"),
        ("khaki", "#F0E68C"),
        ("lavender", "#E6E6FA"),
        ("lavenderblush", "#FFF0F5"),
        ("lawngreen", "#7CFC00"),
        ("lemonchiffon", "#FFFACD"),
        ("lightblue", "#ADD8E6"),
        ("lightcoral", "#F08080"),
        ("lightcyan", "#E0FFFF"),
        ("lightgoldenrodyellow", "#FAFAD2"),
        ("lightgray", "#D3D3D3"),
        ("lightgreen", "#90EE90"),
        ("lightgrey", "#D3D3D3"),
        ("lightpink", "#FFB6C1"),
        ("lightsalmon", "#FFA07A"),
        ("lightseagreen", "#20B2AA"),
        ("lightskyblue", "#87CEFA"),
        ("lightslategray", "#778899"),
        ("lightslategrey", "#778899"),
        ("lightsteelblue", "#B0C4DE"),
        ("lightyellow", "#FFFFE0"),
        ("lime", "#00FF00"),
        ("limegreen", "#32CD32"),
        ("linen", "#FAF0E6"),
        ("magenta", "#FF00FF"),
        ("maroon", "#800000"),
        ("mediumaquamarine", "#66CDAA"),
        ("mediumblue", "#0000CD"),
        ("mediumorchid", "#BA55D3"),
        ("mediumpurple", "#9370DB"),
        ("mediumseagreen", "#3CB371"),
        ("mediumslateblue", "#7B68EE"),
        ("mediumspringgreen", "#00FA9A"),
        ("mediumturquoise", "#48D1CC"),
        ("mediumvioletred", "#C71585"),
        ("midnightblue", "#191970"),
        ("mintcream", "#F5FFFA"),
        ("mistyrose", "#FFE4E1"),
        ("moccasin", "#FFE4B5"),
        ("navajowhite", "#FFDEAD"),
        ("navy", "#000080"),
        ("oldlace", "#FDF5E6"),
        ("olive", "#808000"),
        ("olivedrab", "#6B8E23"),
        ("orange", "#FFA500"),
        ("orangered", "#FF4500"),
        ("orchid", "#DA70D6"),
        ("palegoldenrod", "#EEE8AA"),
        ("palegreen", "#98FB98"),
        ("paleturquoise", "#AFEEEE"),
        ("palevioletred", "#DB7093"),
        ("papayawhip", "#FFEFD5"),
        ("peachpuff", "#FFDAB9"),
        ("peru", "#CD853F"),
        ("pink", "#FFC0CB"),
        ("plum", "#DDA0DD"),
        ("powderblue", "#B0E0E6"),
        ("purple", "#800080"),
        ("rebeccapurple", "#663399"),
        ("red", "#FF0000"),
        ("rosybrown", "#BC8F8F"),
        ("royalblue", "#4169E1"),
        ("saddlebrown", "#8B4513"),
        ("salmon", "#FA8072"),
        ("sandybrown", "#F4A460"),
        ("seagreen", "#2E8B57"),
        ("seashell", "#FFF5EE"),
        ("sienna", "#A0522D"),
        ("silver", "#C0C0C0"),
        ("skyblue", "#87CEEB"),
        ("slateblue", "#6A5ACD"),
        ("slategray", "#708090"),
        ("slategrey", "#708090"),
        ("snow", "#FFFAFA"),
        ("springgreen", "#00FF7F"),
        ("steelblue", "#4682B4"),
        ("tan", "#D2B48C"),
        ("teal", "#008080"),
        ("thistle", "#D8BFD8"),
        ("tomato", "#FF6347"),
        ("turquoise", "#40E0D0"),
        ("violet", "#EE82EE"),
        ("wheat", "#F5DEB3"),
        ("white", "#FFFFFF"),
        ("whitesmoke", "#F5F5F5"),
        ("yellow", "#FFFF00"),
        ("yellowgreen", "#9ACD32"),
    ]
}

/// An entry is usable when its name is non-empty and cannot be taken for
/// hex notation, with or without the `#`, and its hex notation is valid.
pub open spec fn entry_well_formed(e: (&'static str, &'static str)) -> bool {
    &&& e.0.spec_bytes().len() > 0
    &&& e.0.spec_bytes()[0] != 35u8
    &&& exists|k: int|
        0 <= k < e.0.spec_bytes().len() && !#[trigger] is_hex_digit(e.0.spec_bytes()[k])
    &&& is_hex_color(e.1.spec_bytes())
}

/// The named-color vocabulary as a vector, in the order of `named_color_data`.
pub fn named_color_entries() -> (r: Vec<(&'static str, &'static str)>)
    ensures
        r@ == named_color_data(),
        r@.len() == NUM_COLORS,
{
    let v = vec![
        ("aliceblue", "#F0F8FF"),
        ("antiquewhite", "#FAEBD7"),
        ("aqua", "#00FFFF"),
        ("aquamarine", "#7FFFD4"),
        ("azure", "#F0FFFF"),
        ("beige", "#F5F5DC"),
        ("bisque", "#FFE4C4"),
        ("black", "#000000"),
        ("blanchedalmond", "#FFEBCD"),
        ("blue", "#0000FF"),
        ("blueviolet", "#8A2BE2"),
        ("brown", "#A52A2A"),
        ("burlywood", "#DED887"),
        ("cadetblue", "#5F9EA0"),
        ("chartreuse", "#7FFF00"),
        ("chocolate", "#D2691E"),
        ("coral", "#FF7F50"),
        ("cornflowerblue", "#6495ED"),
        ("cornsilk", "#FFF8DC"),
        ("crimson", "#DC143C"),
        ("cyan", "#00FFFF"),
        ("darkblue", "#00008B"),
        ("darkcyan", "#008B8B"),
        ("darkgoldenrod", "#B8860B"),
        ("darkgray", "#A9A9A9"),
        ("darkgreen", "#006400"),
        ("darkgrey", "#A9A9A9"),
        ("darkkhaki", "#BDB76B"),
        ("darkmagenta", "#8B008B"),
        ("darkolivegreen", "#556B2F"),
        ("darkorange", "#FF8C00"),
        ("darkorchid", "#9932CC"),
        ("darkred", "#8B0000"),
        ("darksalmon", "#E9967A"),
        ("darkseagreen", "#8FBC8F"),
        ("darkslateblue", "#483D8B"),
        ("darkslategray", "#2F4F4F"),
        ("darkslategrey", "#2F4F4F"),
        ("darkturquoise", "#00CED1"),
        ("darkviolet", "#9400D3"),
        ("deeppink", "#FF1493"),
        ("deepskyblue", "#00BFFF"),
        ("dimgray", "#696969"),
        ("dimgrey", "#696969"),
        ("dodgerblue", "#1E90FF"),
        ("firebrick", "#B22222"),
        ("floralwhite", "#FFFAF0"),
        ("forestgreen", "#228B22"),
        ("fuchsia", "#FF00FF"),
        ("gainsboro", "#DCDCDC"),
        ("ghostwhite", "#F8F8FF"),
        ("gold", "#FFD700"),
        ("goldenrod", "#DAA520"),
        ("gray", "#808080"),
        ("green", "#008000"),
        ("greenyellow", "#ADFF2F"),
        ("grey", "#808080"),
        ("honeydew", "#F0FFF0"),
        ("hotpink", "#FF69B4"),
        ("indianred", "#CD5C5C"),
        ("indigo", "#4B0082"),
        ("ivory", "#FFFFF0"),
        ("khaki", "#F0E68C"),
        ("lavender", "#E6E6FA"),
        ("lavenderblush", "#FFF0F5"),
        ("lawngreen", "#7CFC00"),
        ("lemonchiffon", "#FFFACD"),
        ("lightblue", "#ADD8E6"),
        ("lightcoral", "#F08080"),
        ("lightcyan", "#E0FFFF"),
        ("lightgoldenrodyellow", "#FAFAD2"),
        ("lightgray", "#D3D3D3"),
        ("lightgreen", "#90EE90"),
        ("lightgrey", "#D3D3D3"),
        ("lightpink", "#FFB6C1"),
        ("lightsalmon", "#FFA07A"),
        ("lightseagreen", "#20B2AA"),
        ("lightskyblue", "#87CEFA"),
        ("lightslategray", "#778899"),
        ("lightslategrey", "#778899"),
        ("lightsteelblue", "#B0C4DE"),
        ("lightyellow", "#FFFFE0"),
        ("lime", "#00FF00"),
        ("limegreen", "#32CD32"),
        ("linen", "#FAF0E6"),
        ("magenta", "#FF00FF"),
        ("maroon", "#800000"),
        ("mediumaquamarine", "#66CDAA"),
        ("mediumblue", "#0000CD"),
        ("mediumorchid", "#BA55D3"),
        ("mediumpurple", "#9370DB"),
        ("mediumseagreen", "#3CB371"),
        ("mediumslateblue", "#7B68EE"),
        ("mediumspringgreen", "#00FA9A"),
        ("mediumturquoise", "#48D1CC"),
        ("mediumvioletred", "#C71585"),
        ("midnightblue", "#191970"),
        ("mintcream", "#F5FFFA"),
        ("mistyrose", "#FFE4E1"),
        ("moccasin", "#FFE4B5"),
        ("navajowhite", "#FFDEAD"),
        ("navy", "#000080"),
        ("oldlace", "#FDF5E6"),
        ("olive", "#808000"),
        ("olivedrab", "#6B8E23"),
        ("orange", "#FFA500"),
        ("orangered", "#FF4500"),
        ("orchid", "#DA70D6"),
        ("palegoldenrod", "#EEE8AA"),
        ("palegreen", "#98FB98"),
        ("paleturquoise", "#AFEEEE"),
        ("palevioletred", "#DB7093"),
        ("papayawhip", "#FFEFD5"),
        ("peachpuff", "#FFDAB9"),
        ("peru", "#CD853F"),
        ("pink", "#FFC0CB"),
        ("plum", "#DDA0DD"),
        ("powderblue", "#B0E0E6"),
        ("purple", "#800080"),
        ("rebeccapurple", "#663399"),
        ("red", "#FF0000"),
        ("rosybrown", "#BC8F8F"),
        ("royalblue", "#4169E1"),
        ("saddlebrown", "#8B4513"),
        ("salmon", "#FA8072"),
        ("sandybrown", "#F4A460"),
        ("seagreen", "#2E8B57"),
        ("seashell", "#FFF5EE"),
        ("sienna", "#A0522D"),
        ("silver", "#C0C0C0"),
        ("skyblue", "#87CEEB"),
        ("slateblue", "#6A5ACD"),
        ("slategray", "#708090"),
        ("slategrey", "#708090"),
        ("snow", "#FFFAFA"),
        ("springgreen", "#00FF7F"),
        ("steelblue", "#4682B4"),
        ("tan", "#D2B48C"),
        ("teal", "#008080"),
        ("thistle", "#D8BFD8"),
        ("tomato", "#FF6347"),
        ("turquoise", "#40E0D0"),
        ("violet", "#EE82EE"),
        ("wheat", "#F5DEB3"),
        ("white", "#FFFFFF"),
        ("whitesmoke", "#F5F5F5"),
        ("yellow", "#FFFF00"),
        ("yellowgreen", "#9ACD32"),
    ];
    assert(v@ =~= named_color_data());
    v
}

proof fn lemma_entries_well_formed_0_25()
    ensures
        forall|i: int| 0 <= i < 25 ==> #[trigger] entry_well_formed(named_color_data()[i]),
{
    reveal_strlit("aliceblue");
    reveal_strlit("#F0F8FF");
    vstd::string::is_ascii_spec_bytes(named_color_data()[0].0);
    vstd::string::is_ascii_spec_bytes(named_color_data()[0].1);
    assert(!is_hex_digit(named_color_data()[0].0.spec_bytes()[1]));
    assert(entry_well_formed(named_color_data()[0]));
    reveal_strlit("antiquewhite");
    reveal_strlit("#FAEBD7");
    vstd::string::is_ascii_spec_bytes(named_color_data()[1].0);
    vstd::string::is_ascii_spec_bytes(named_color_data()[1].1);
    assert(!is_hex_digit(named_color_data()[1].0.spec_bytes()[1]));
    assert(entry_well_formed(named_color_data()[1]));
    reveal_strlit("aqua");
    reveal_strlit("#00FFFF");
    vstd::string::is_ascii_spec_bytes(named_color_data()[2].0);
    vstd::string::is_ascii_spec_bytes(named_color_data()[2].1);
    assert(!is_hex_digit(named_color_data()[2].0.spec_bytes()[1]));
    assert(entry_well_formed(named_color_data()[2]));
    reveal_strlit("aquamarine");
    reveal_strlit("#7FFFD4");
    vstd::string::is_ascii_spec_bytes(named_color_data()[3].0);
    vstd::string::is_ascii_spec_bytes(named_color_data()[3].1);
    assert(!is_hex_digit(named_color_data()[3].0.spec_bytes()[1]));
    assert(entry_well_formed(named_color_data()[3]));
    reveal_strlit("azure");
    reveal_strlit("#F0FFFF");
    vstd::string::is_ascii_spec_bytes(named_color_data()[4].0);
    vstd::string::is_ascii_spec_bytes(named_color_data()[4].1);
    assert(!is_hex_digit(named_color_data()[4].0.spec_bytes()[1]));
    assert(entry_well_formed(named_color_data()[4]));
    reveal_strlit("beige");
    reveal_strlit("#F5F5DC");
    vstd::string::is_ascii_spec_bytes(named_color_data()[5].0);
    vstd::string::is_ascii_spec_bytes(named_color_data()[5].1);
    assert(!is_hex_digit(named_color_data()[5].0.spec_bytes()[2]));
    assert(entry_well_formed(named_color_data()[5]));
    reveal_strlit("bisque");
    reveal_strlit("#FFE4C4");
    vstd::string::is_ascii_spec_bytes(named_color_data()[6].0);
    vstd::string::is_ascii_spec_bytes(named_color_data()[6].1);
    assert(!is_hex_digit(named_color_data()[6].0.spec_bytes()[1]));
    assert(entry_well_formed(named_color_data()[6]));
    reveal_strlit("black");
    reveal_strlit("#000000");
    vstd::string::is_ascii_spec_bytes(named_color_data()[7].0);
    vstd::string::is_ascii_spec_bytes(named_color_data()[7].1);
    assert(!is_hex_digit(named_color_data()[7].0.spec_bytes()[1]));
    assert(entry_well_formed(named_color_data()[7]));
    reveal_strlit("blanchedalmond");
    reveal_strlit("#FFEBCD");
    vstd::string::is_ascii_spec_bytes(named_color_data()[8].0);
    vstd::string::is_ascii_spec_bytes(named_color_data()[8].1);
    assert(!is_hex_digit(named_color_data()[8].0.spec_bytes()[1]));
    assert(entry_well_formed(named_color_data()[8]));
    reveal_strlit("blue");
    reveal_strlit("#0000FF");
    vstd::string::is_ascii_spec_bytes(named_color_data()[9].0);
    vstd::string::is_ascii_spec_bytes(named_color_data()[9].1);
    assert(!is_hex_digit(named_color_data()[9].0.spec_bytes()[1]));
    assert(entry_well_formed(named_color_data()[9]));
    reveal_strlit("blueviolet");
    reveal_strlit("#8A2BE2");
    vstd::string::is_ascii_spec_bytes(named_color_data()[10].0);
    vstd::string::is_ascii_spec_bytes(named_color_data()[10].1);
    assert(!is_hex_digit(named_color_data()[10].0.spec_bytes()[1]));
    assert(entry_well_formed(named_color_data()[10]));
    reveal_strlit("brown");
    reveal_strlit("#A52A2A");
    vstd::string::is_ascii_spec_bytes(named_color_data()[11].0);
    vstd::string::is_ascii_spec_bytes(named_color_data()[11].1);
    assert(!is_hex_digit(named_color_data()[11].0.spec_bytes()[1]));
    assert(entry_well_formed(named_color_data()[11]));
    reveal_strlit("burlywood");
    reveal_strlit("#DED887");
    vstd::string::is_ascii_spec_bytes(named_color_data()[12].0);
    vstd::string::is_ascii_spec_bytes(named_color_data()[12].1);
    assert(!is_hex_digit(named_color_data()[12].0.spec_bytes()[1]));
    assert(entry_well_formed(named_color_data()[12]));
    reveal_strlit("cadetblue");
    reveal_strlit("#5F9EA0");
    vstd::string::is_ascii_spec_bytes(named_color_data()[13].0);
    vstd::string::is_ascii_spec_bytes(named_color_data()[13].1);
    assert(!is_hex_digit(named_color_data()[13].0.spec_bytes()[4]));
    assert(entry_well_formed(named_color_data()[13]));
    reveal_strlit("chartreuse");
    reveal_strlit("#7FFF00");
    vstd::string::is_ascii_spec_bytes(named_color_data()[14].0);
    vstd::string::is_ascii_spec_bytes(named_color_data()[14].1);
    assert(!is_hex_digit(named_color_data()[14].0.spec_bytes()[1]));
    assert(entry_well_formed(named_color_data()[14]));
    reveal_strlit("chocolate");
    reveal_strlit("#D2691E");
    vstd::string::is_ascii_spec_bytes(named_color_data()[15].0);
    vstd::string::is_ascii_spec_bytes(named_color_data()[15].1);
    assert(!is_hex_digit(named_color_data()[15].0.spec_bytes()[1]));
    assert(entry_well_formed(named_color_data()[15]));
    reveal_strlit("coral");
    reveal_strlit("#FF7F50");
    vstd::string::is_ascii_spec_bytes(named_color_data()[16].0);
    vstd::string::is_ascii_spec_bytes(named_color_data()[16].1);
    assert(!is_hex_digit(named_color_data()[16].0.spec_bytes()[1]));
    assert(entry_well_formed(named_color_data()[16]));
    reveal_strlit("cornflowerblue");
    reveal_strlit("#6495ED");
    vstd::string::is_ascii_spec_bytes(named_color_data()[17].0);
    vstd::string::is_ascii_spec_bytes(named_color_data()[17].1);
    assert(!is_hex_digit(named_color_data()[17].0.spec_bytes()[1]));
    assert(entry_well_formed(named_color_data()[17]));
    reveal_strlit("cornsilk");
    reveal_strlit("#FFF8DC");
    vstd::string::is_ascii_spec_bytes(named_color_data()[18].0);
    vstd::string::is_ascii_spec_bytes(named_color_data()[18].1);
    assert(!is_hex_digit(named_color_data()[18].0.spec_bytes()[1]));
    assert(entry_well_formed(named_color_data()[18]));
    reveal_strlit("crimson");
    reveal_strlit("#DC143C");
    vstd::string::is_ascii_spec_bytes(named_color_data()[19].0);
    vstd::string::is_ascii_spec_bytes(named_color_data()[19].1);
    assert(!is_hex_digit(named_color_data()[19].0.spec_bytes()[1]));
    assert(entry_well_formed(named_color_data()[19]));
    reveal_strlit("cyan");
    reveal_strlit("#00FFFF");
    vstd::string::is_ascii_spec_bytes(named_color_data()[20].0);
    vstd::string::is_ascii_spec_bytes(named_color_data()[20].1);
    assert(!is_hex_digit(named_color_data()[20].0.spec_bytes()[1]));
    assert(entry_well_formed(named_color_data()[20]));
    reveal_strlit("darkblue");
    reveal_strlit("#00008B");
    vstd::string::is_ascii_spec_bytes(named_color_data()[21].0);
    vstd::string::is_ascii_spec_bytes(named_color_data()[21].1);
    assert(!is_hex_digit(named_color_data()[21].0.spec_bytes()[2]));
    assert(entry_well_formed(named_color_data()[21]));
    reveal_strlit("darkcyan");
    reveal_strlit("#008B8B");
    vstd::string::is_ascii_spec_bytes(named_color_data()[22].0);
    vstd::string::is_ascii_spec_bytes(named_color_data()[22].1);
    assert(!is_hex_digit(named_color_data()[22].0.spec_bytes()[2]));
    assert(entry_well_formed(named_color_data()[22]));
    reveal_strlit("darkgoldenrod");
    reveal_strlit("#B8860B");
    vstd::string::is_ascii_spec_bytes(named_color_data()[23].0);
    vstd::string::is_ascii_spec_bytes(named_color_data()[23].1);
    assert(!is_hex_digit(named_color_data()[23].0.spec_bytes()[2]));
    assert(entry_well_formed(named_color_data()[23]));
    reveal_strlit("darkgray");
    reveal_strlit("#A9A9A9");
    vstd::string::is_ascii_spec_bytes(named_color_data()[24].0);
    vstd::string::is_ascii_spec_bytes(named_color_data()[24].1);
    assert(!is_hex_digit(named_color_data()[24].0.spec_bytes()[2]));
    assert(entry_well_formed(named_color_data()[24]));
}

proof fn lemma_entries_well_formed_25_50()
    ensures
        forall|i: int| 25 <= i < 50 ==> #[trigger] entry_well_formed(named_color_data()[i]),
{
    reveal_strlit("darkgreen");
    reveal_strlit("#006400");
    vstd::string::is_ascii_spec_bytes(named_color_data()[25].0);
    vstd::string::is_ascii_spec_bytes(named_color_data()[25].1);
    assert(!is_hex_digit(named_color_data()[25].0.spec_bytes()[2]));
    assert(entry_well_formed(named_color_data()[25]));
    reveal_strlit("darkgrey");
    reveal_strlit("#A9A9A9");
    vstd::string::is_ascii_spec_bytes(named_color_data()[26].0);
    vstd::string::is_ascii_spec_bytes(named_color_data()[26].1);
    assert(!is_hex_digit(named_color_data()[26].0.spec_bytes()[2]));
    assert(entry_well_formed(named_color_data()[26]));
    reveal_strlit("darkkhaki");
    reveal_strlit("#BDB76B");
    vstd::string::is_ascii_spec_bytes(named_color_data()[27].0);
    vstd::string::is_ascii_spec_bytes(named_color_data()[27].1);
    assert(!is_hex_digit(named_color_data()[27].0.spec_bytes()[2]));
    assert(entry_well_formed(named_color_data()[27]));
    reveal_strlit("darkmagenta");
    reveal_strlit("#8B008B");
    vstd::string::is_ascii_spec_bytes(named_color_data()[28].0);
    vstd::string::is_ascii_spec_bytes(named_color_data()[28].1);
    assert(!is_hex_digit(named_color_data()[28].0.spec_bytes()[2]));
    assert(entry_well_formed(named_color_data()[28]));
    reveal_strlit("darkolivegreen");
    reveal_strlit("#556B2F");
    vstd::string::is_ascii_spec_bytes(named_color_data()[29].0);
    vstd::string::is_ascii_spec_bytes(named_color_data()[29].1);
    assert(!is_hex_digit(named_color_data()[29].0.spec_bytes()[2]));
    assert(entry_well_formed(named_color_data()[29]));
    reveal_strlit("darkorange");
    reveal_strlit("#FF8C00");
    vstd::string::is_ascii_spec_bytes(named_color_data()[30].0);
    vstd::string::is_ascii_spec_bytes(named_color_data()[30].1);
    assert(!is_hex_digit(named_color_data()[30].0.spec_bytes()[2]));
    assert(entry_well_formed(named_color_data()[30]));
    reveal_strlit("darkorchid");
    reveal_strlit("#9932CC");
    vstd::string::is_ascii_spec_bytes(named_color_data()[31].0);
    vstd::string::is_ascii_spec_bytes(named_color_data()[31].1);
    assert(!is_hex_digit(named_color_data()[31].0.spec_bytes()[2]));
    assert(entry_well_formed(named_color_data()[31]));
    reveal_strlit("darkred");
    reveal_strlit("#8B0000");
    vstd::string::is_ascii_spec_bytes(named_color_data()[32].0);
    vstd::string::is_ascii_spec_bytes(named_color_data()[32].1);
    assert(!is_hex_digit(named_color_data()[32].0.spec_bytes()[2]));
    assert(entry_well_formed(named_color_data()[32]));
    reveal_strlit("darksalmon");
    reveal_strlit("#E9967A");
    vstd::string::is_ascii_spec_bytes(named_color_data()[33].0);
    vstd::string::is_ascii_spec_bytes(named_color_data()[33].1);
    assert(!is_hex_digit(named_color_data()[33].0.spec_bytes()[2]));
    assert(entry_well_formed(named_color_data()[33]));
    reveal_strlit("darkseagreen");
    reveal_strlit("#8FBC8F");
    vstd::string::is_ascii_spec_bytes(named_color_data()[34].0);
    vstd::string::is_ascii_spec_bytes(named_color_data()[34].1);
    assert(!is_hex_digit(named_color_data()[34].0.spec_bytes()[2]));
    assert(entry_well_formed(named_color_data()[34]));
    reveal_strlit("darkslateblue");
    reveal_strlit("#483D8B");
    vstd::string::is_ascii_spec_bytes(named_color_data()[35].0);
    vstd::string::is_ascii_spec_bytes(named_color_data()[35].1);
    assert(!is_hex_digit(named_color_data()[35].0.spec_bytes()[2]));
    assert(entry_well_formed(named_color_data()[35]));
    reveal_strlit("darkslategray");
    reveal_strlit("#2F4F4F");
    vstd::string::is_ascii_spec_bytes(named_color_data()[36].0);
    vstd::string::is_ascii_spec_bytes(named_color_data()[36].1);
    assert(!is_hex_digit(named_color_data()[36].0.spec_bytes()[2]));
    assert(entry_well_formed(named_color_data()[36]));
    reveal_strlit("darkslategrey");
    reveal_strlit("#2F4F4F");
    vstd::string::is_ascii_spec_bytes(named_color_data()[37].0);
    vstd::string::is_ascii_spec_bytes(named_color_data()[37].1);
    assert(!is_hex_digit(named_color_data()[37].0.spec_bytes()[2]));
    assert(entry_well_formed(named_color_data()[37]));
    reveal_strlit("darkturquoise");
    reveal_strlit("#00CED1");
    vstd::string::is_ascii_spec_bytes(named_color_data()[38].0);
    vstd::string::is_ascii_spec_bytes(named_color_data()[38].1);
    assert(!is_hex_digit(named_color_data()[38].0.spec_bytes()[2]));
    assert(entry_well_formed(named_color_data()[38]));
    reveal_strlit("darkviolet");
    reveal_strlit("#9400D3");
    vstd::string::is_ascii_spec_bytes(named_color_data()[39].0);
    vstd::string::is_ascii_spec_bytes(named_color_data()[39].1);
    assert(!is_hex_digit(named_color_data()[39].0.spec_bytes()[2]));
    assert(entry_well_formed(named_color_data()[39]));
    reveal_strlit("deeppink");
    reveal_strlit("#FF1493");
    vstd::string::is_ascii_spec_bytes(named_color_data()[40].0);
    vstd::string::is_ascii_spec_bytes(named_color_data()[40].1);
    assert(!is_hex_digit(named_color_data()[40].0.spec_bytes()[3]));
    assert(entry_well_formed(named_color_data()[40]));
    reveal_strlit("deepskyblue");
    reveal_strlit("#00BFFF");
    vstd::string::is_ascii_spec_bytes(named_color_data()[41].0);
    vstd::string::is_ascii_spec_bytes(named_color_data()[41].1);
    assert(!is_hex_digit(named_color_data()[41].0.spec_bytes()[3]));
    assert(entry_well_formed(named_color_data()[41]));
    reveal_strlit("dimgray");
    reveal_strlit("#696969");
    vstd::string::is_ascii_spec_bytes(named_color_data()[42].0);
    vstd::string::is_ascii_spec_bytes(named_color_data()[42].1);
    assert(!is_hex_digit(named_color_data()[42].0.spec_bytes()[1]));
    assert(entry_well_formed(named_color_data()[42]));
    reveal_strlit("dimgrey");
    reveal_strlit("#696969");
    vstd::string::is_ascii_spec_bytes(named_color_data()[43].0);
    vstd::string::is_ascii_spec_bytes(named_color_data()[43].1);
    assert(!is_hex_digit(named_color_data()[43].0.spec_bytes()[1]));
    assert(entry_well_formed(named_color_data()[43]));
    reveal_strlit("dodgerblue");
    reveal_strlit("#1E90FF");
    vstd::string::is_ascii_spec_bytes(named_color_data()[44].0);
    vstd::string::is_ascii_spec_bytes(named_color_data()[44].1);
    assert(!is_hex_digit(named_color_data()[44].0.spec_bytes()[1]));
    assert(entry_well_formed(named_color_data()[44]));
    reveal_strlit("firebrick");
    reveal_strlit("#B22222");
    vstd::string::is_ascii_spec_bytes(named_color_data()[45].0);
    vstd::string::is_ascii_spec_bytes(named_color_data()[45].1);
    assert(!is_hex_digit(named_color_data()[45].0.spec_bytes()[1]));
    assert(entry_well_formed(named_color_data()[45]));
    reveal_strlit("floralwhite");
    reveal_strlit("#FFFAF0");
    vstd::string::is_ascii_spec_bytes(named_color_data()[46].0);
    vstd::string::is_ascii_spec_bytes(named_color_data()[46].1);
    assert(!is_hex_digit(named_color_data()[46].0.spec_bytes()[1]));
    assert(entry_well_formed(named_color_data()[46]));
    reveal_strlit("forestgreen");
    reveal_strlit("#228B22");
    vstd::string::is_ascii_spec_bytes(named_color_data()[47].0);
    vstd::string::is_ascii_spec_bytes(named_color_data()[47].1);
    assert(!is_hex_digit(named_color_data()[47].0.spec_bytes()[1]));
    assert(entry_well_formed(named_color_data()[47]));
    reveal_strlit("fuchsia");
    reveal_strlit("#FF00FF");
    vstd::string::is_ascii_spec_bytes(named_color_data()[48].0);
    vstd::string::is_ascii_spec_bytes(named_color_data()[48].1);
    assert(!is_hex_digit(named_color_data()[48].0.spec_bytes()[1]));
    assert(entry_well_formed(named_color_data()[48]));
    reveal_strlit("gainsboro");
    reveal_strlit("#DCDCDC");
    vstd::string::is_ascii_spec_bytes(named_color_data()[49].0);
    vstd::string::is_ascii_spec_bytes(named_color_data()[49].1);
    assert(!is_hex_digit(named_color_data()[49].0.spec_bytes()[0]));
    assert(entry_well_formed(named_color_data()[49]));
}

proof fn lemma_entries_well_formed_50_75()
    ensures
        forall|i: int| 50 <= i < 75 ==> #[trigger] entry_well_formed(named_color_data()[i]),
{
    reveal_strlit("ghostwhite");
    reveal_strlit("#F8F8FF");
    vstd::string::is_ascii_spec_bytes(named_color_data()[50].0);
    vstd::string::is_ascii_spec_bytes(named_color_data()[50].1);
    assert(!is_hex_digit(named_color_data()[50].0.spec_bytes()[0]));
    assert(entry_well_formed(named_color_data()[50]));
    reveal_strlit("gold");
    reveal_strlit("#FFD700");
    vstd::string::is_ascii_spec_bytes(named_color_data()[51].0);
    vstd::string::is_ascii_spec_bytes(named_color_data()[51].1);
    assert(!is_hex_digit(named_color_data()[51].0.spec_bytes()[0]));
    assert(entry_well_formed(named_color_data()[51]));
    reveal_strlit("goldenrod");
    reveal_strlit("#DAA520");
    vstd::string::is_ascii_spec_bytes(named_color_data()[52].0);
    vstd::string::is_ascii_spec_bytes(named_color_data()[52].1);
    assert(!is_hex_digit(named_color_data()[52].0.spec_bytes()[0]));
    assert(entry_well_formed(named_color_data()[52]));
    reveal_strlit("gray");
    reveal_strlit("#808080");
    vstd::string::is_ascii_spec_bytes(named_color_data()[53].0);
    vstd::string::is_ascii_spec_bytes(named_color_data()[53].1);
    assert(!is_hex_digit(named_color_data()[53].0.spec_bytes()[0]));
    assert(entry_well_formed(named_color_data()[53]));
    reveal_strlit("green");
    reveal_strlit("#008000");
    vstd::string::is_ascii_spec_bytes(named_color_data()[54].0);
    vstd::string::is_ascii_spec_bytes(named_color_data()[54].1);
    assert(!is_hex_digit(named_color_data()[54].0.spec_bytes()[0]));
    assert(entry_well_formed(named_color_data()[54]));
    reveal_strlit("greenyellow");
    reveal_strlit("#ADFF2F");
    vstd::string::is_ascii_spec_bytes(named_color_data()[55].0);
    vstd::string::is_ascii_spec_bytes(named_color_data()[55].1);
    assert(!is_hex_digit(named_color_data()[55].0.spec_bytes()[0]));
    assert(entry_well_formed(named_color_data()[55]));
    reveal_strlit("grey");
    reveal_strlit("#808080");
    vstd::string::is_ascii_spec_bytes(named_color_data()[56].0);
    vstd::string::is_ascii_spec_bytes(named_color_data()[56].1);
    assert(!is_hex_digit(named_color_data()[56].0.spec_bytes()[0]));
    assert(entry_well_formed(named_color_data()[56]));
    reveal_strlit("honeydew");
    reveal_strlit("#F0FFF0");
    vstd::string::is_ascii_spec_bytes(named_color_data()[57].0);
    vstd::string::is_ascii_spec_bytes(named_color_data()[57].1);
    assert(!is_hex_digit(named_color_data()[57].0.spec_bytes()[0]));
    assert(entry_well_formed(named_color_data()[57]));
    reveal_strlit("hotpink");
    reveal_strlit("#FF69B4");
    vstd::string::is_ascii_spec_bytes(named_color_data()[58].0);
    vstd::string::is_ascii_spec_bytes(named_color_data()[58].1);
    assert(!is_hex_digit(named_color_data()[58].0.spec_bytes()[0]));
    assert(entry_well_formed(named_color_data()[58]));
    reveal_strlit("indianred");
    reveal_strlit("#CD5C5C");
    vstd::string::is_ascii_spec_bytes(named_color_data()[59].0);
    vstd::string::is_ascii_spec_bytes(named_color_data()[59].1);
    assert(!is_hex_digit(named_color_data()[59].0.spec_bytes()[0]));
    assert(entry_well_formed(named_color_data()[59]));
    reveal_strlit("indigo");
    reveal_strlit("#4B0082");
    vstd::string::is_ascii_spec_bytes(named_color_data()[60].0);
    vstd::string::is_ascii_spec_bytes(named_color_data()[60].1);
    assert(!is_hex_digit(named_color_data()[60].0.spec_bytes()[0]));
    assert(entry_well_formed(named_color_data()[60]));
    reveal_strlit("ivory");
    reveal_strlit("#FFFFF0");
    vstd::string::is_ascii_spec_bytes(named_color_data()[61].0);
    vstd::string::is_ascii_spec_bytes(named_color_data()[61].1);
    assert(!is_hex_digit(named_color_data()[61].0.spec_bytes()[0]));
    assert(entry_well_formed(named_color_data()[61]));
    reveal_strlit("khaki");
    reveal_strlit("#F0E68C");
    vstd::string::is_ascii_spec_bytes(named_color_data()[62].0);
    vstd::string::is_ascii_spec_bytes(named_color_data()[62].1);
    assert(!is_hex_digit(named_color_data()[62].0.spec_bytes()[0]));
    assert(entry_well_formed(named_color_data()[62]));
    reveal_strlit("lavender");
    reveal_strlit("#E6E6FA");
    vstd::string::is_ascii_spec_bytes(named_color_data()[63].0);
    vstd::string::is_ascii_spec_bytes(named_color_data()[63].1);
    assert(!is_hex_digit(named_color_data()[63].0.spec_bytes()[0]));
    assert(entry_well_formed(named_color_data()[63]));
    reveal_strlit("lavenderblush");
    reveal_strlit("#FFF0F5");
    vstd::string::is_ascii_spec_bytes(named_color_data()[64].0);
    vstd::string::is_ascii_spec_bytes(named_color_data()[64].1);
    assert(!is_hex_digit(named_color_data()[64].0.spec_bytes()[0]));
    assert(entry_well_formed(named_color_data()[64]));
    reveal_strlit("lawngreen");
    reveal_strlit("#7CFC00");
    vstd::string::is_ascii_spec_bytes(named_color_data()[65].0);
    vstd::string::is_ascii_spec_bytes(named_color_data()[65].1);
    assert(!is_hex_digit(named_color_data()[65].0.spec_bytes()[0]));
    assert(entry_well_formed(named_color_data()[65]));
    reveal_strlit("lemonchiffon");
    reveal_strlit("#FFFACD");
    vstd::string::is_ascii_spec_bytes(named_color_data()[66].0);
    vstd::string::is_ascii_spec_bytes(named_color_data()[66].1);
    assert(!is_hex_digit(named_color_data()[66].0.spec_bytes()[0]));
    assert(entry_well_formed(named_color_data()[66]));
    reveal_strlit("lightblue");
    reveal_strlit("#ADD8E6");
    vstd::string::is_ascii_spec_bytes(named_color_data()[67].0);
    vstd::string::is_ascii_spec_bytes(named_color_data()[67].1);
    assert(!is_hex_digit(named_color_data()[67].0.spec_bytes()[0]));
    assert(entry_well_formed(named_color_data()[67]));
    reveal_strlit("lightcoral");
    reveal_strlit("#F08080");
    vstd::string::is_ascii_spec_bytes(named_color_data()[68].0);
    vstd::string::is_ascii_spec_bytes(named_color_data()[68].1);
    assert(!is_hex_digit(named_color_data()[68].0.spec_bytes()[0]));
    assert(entry_well_formed(named_color_data()[68]));
    reveal_strlit("lightcyan");
    reveal_strlit("#E0FFFF");
    vstd::string::is_ascii_spec_bytes(named_color_data()[69].0);
    vstd::string::is_ascii_spec_bytes(named_color_data()[69].1);
    assert(!is_hex_digit(named_color_data()[69].0.spec_bytes()[0]));
    assert(entry_well_formed(named_color_data()[69]));
    reveal_strlit("lightgoldenrodyellow");
    reveal_strlit("#FAFAD2");
    vstd::string::is_ascii_spec_bytes(named_color_data()[70].0);
    vstd::string::is_ascii_spec_bytes(named_color_data()[70].1);
    assert(!is_hex_digit(named_color_data()[70].0.spec_bytes()[0]));
    assert(entry_well_formed(named_color_data()[70]));
    reveal_strlit("lightgray");
    reveal_strlit("#D3D3D3");
    vstd::string::is_ascii_spec_bytes(named_color_data()[71].0);
    vstd::string::is_ascii_spec_bytes(named_color_data()[71].1);
    assert(!is_hex_digit(named_color_data()[71].0.spec_bytes()[0]));
    assert(entry_well_formed(named_color_data()[71]));
    reveal_strlit("lightgreen");
    reveal_strlit("#90EE90");
    vstd::string::is_ascii_spec_bytes(named_color_data()[72].0);
    vstd::string::is_ascii_spec_bytes(named_color_data()[72].1);
    assert(!is_hex_digit(named_color_data()[72].0.spec_bytes()[0]));
    assert(entry_well_formed(named_color_data()[72]));
    reveal_strlit("lightgrey");
    reveal_strlit("#D3D3D3");
    vstd::string::is_ascii_spec_bytes(named_color_data()[73].0);
    vstd::string::is_ascii_spec_bytes(named_color_data()[73].1);
    assert(!is_hex_digit(named_color_data()[73].0.spec_bytes()[0]));
    assert(entry_well_formed(named_color_data()[73]));
    reveal_strlit("lightpink");
    reveal_strlit("#FFB6C1");
    vstd::string::is_ascii_spec_bytes(named_color_data()[74].0);
    vstd::string::is_ascii_spec_bytes(named_color_data()[74].1);
    assert(!is_hex_digit(named_color_data()[74].0.spec_bytes()[0]));
    assert(entry_well_formed(named_color_data()[74]));
}

proof fn lemma_entries_well_formed_75_100()
    ensures
        forall|i: int| 75 <= i < 100 ==> #[trigger] entry_well_formed(named_color_data()[i]),
{
    reveal_strlit("lightsalmon");
    reveal_strlit("#FFA07A");
    vstd::string::is_ascii_spec_bytes(named_color_data()[75].0);
    vstd::string::is_ascii_spec_bytes(named_color_data()[75].1);
    assert(!is_hex_digit(named_color_data()[75].0.spec_bytes()[0]));
    assert(entry_well_formed(named_color_data()[75]));
    reveal_strlit("lightseagreen");
    reveal_strlit("#20B2AA");
    vstd::string::is_ascii_spec_bytes(named_color_data()[76].0);
    vstd::string::is_ascii_spec_bytes(named_color_data()[76].1);
    assert(!is_hex_digit(named_color_data()[76].0.spec_bytes()[0]));
    assert(entry_well_formed(named_color_data()[76]));
    reveal_strlit("lightskyblue");
    reveal_strlit("#87CEFA");
    vstd::string::is_ascii_spec_bytes(named_color_data()[77].0);
    vstd::string::is_ascii_spec_bytes(named_color_data()[77].1);
    assert(!is_hex_digit(named_color_data()[77].0.spec_bytes()[0]));
    assert(entry_well_formed(named_color_data()[77]));
    reveal_strlit("lightslategray");
    reveal_strlit("#778899");
    vstd::string::is_ascii_spec_bytes(named_color_data()[78].0);
    vstd::string::is_ascii_spec_bytes(named_color_data()[78].1);
    assert(!is_hex_digit(named_color_data()[78].0.spec_bytes()[0]));
    assert(entry_well_formed(named_color_data()[78]));
    reveal_strlit("lightslategrey");
    reveal_strlit("#778899");
    vstd::string::is_ascii_spec_bytes(named_color_data()[79].0);
    vstd::string::is_ascii_spec_bytes(named_color_data()[79].1);
    assert(!is_hex_digit(named_color_data()[79].0.spec_bytes()[0]));
    assert(entry_well_formed(named_color_data()[79]));
    reveal_strlit("lightsteelblue");
    reveal_strlit("#B0C4DE");
    vstd::string::is_ascii_spec_bytes(named_color_data()[80].0);
    vstd::string::is_ascii_spec_bytes(named_color_data()[80].1);
    assert(!is_hex_digit(named_color_data()[80].0.spec_bytes()[0]));
    assert(entry_well_formed(named_color_data()[80]));
    reveal_strlit("lightyellow");
    reveal_strlit("#FFFFE0");
    vstd::string::is_ascii_spec_bytes(named_color_data()[81].0);
    vstd::string::is_ascii_spec_bytes(named_color_data()[81].1);
    assert(!is_hex_digit(named_color_data()[81].0.spec_bytes()[0]));
    assert(entry_well_formed(named_color_data()[81]));
    reveal_strlit("lime");
    reveal_strlit("#00FF00");
    vstd::string::is_ascii_spec_bytes(named_color_data()[82].0);
    vstd::string::is_ascii_spec_bytes(named_color_data()[82].1);
    assert(!is_hex_digit(named_color_data()[82].0.spec_bytes()[0]));
    assert(entry_well_formed(named_color_data()[82]));
    reveal_strlit("limegreen");
    reveal_strlit("#32CD32");
    vstd::string::is_ascii_spec_bytes(named_color_data()[83].0);
    vstd::string::is_ascii_spec_bytes(named_color_data()[83].1);
    assert(!is_hex_digit(named_color_data()[83].0.spec_bytes()[0]));
    assert(entry_well_formed(named_color_data()[83]));
    reveal_strlit("linen");
    reveal_strlit("#FAF0E6");
    vstd::string::is_ascii_spec_bytes(named_color_data()[84].0);
    vstd::string::is_ascii_spec_bytes(named_color_data()[84].1);
    assert(!is_hex_digit(named_color_data()[84].0.spec_bytes()[0]));
    assert(entry_well_formed(named_color_data()[84]));
    reveal_strlit("magenta");
    reveal_strlit("#FF00FF");
    vstd::string::is_ascii_spec_bytes(named_color_data()[85].0);
    vstd::string::is_ascii_spec_bytes(named_color_data()[85].1);
    assert(!is_hex_digit(named_color_data()[85].0.spec_bytes()[0]));
    assert(entry_well_formed(named_color_data()[85]));
    reveal_strlit("maroon");
    reveal_strlit("#800000");
    vstd::string::is_ascii_spec_bytes(named_color_data()[86].0);
    vstd::string::is_ascii_spec_bytes(named_color_data()[86].1);
    assert(!is_hex_digit(named_color_data()[86].0.spec_bytes()[0]));
    assert(entry_well_formed(named_color_data()[86]));
    reveal_strlit("mediumaquamarine");
    reveal_strlit("#66CDAA");
    vstd::string::is_ascii_spec_bytes(named_color_data()[87].0);
    vstd::string::is_ascii_spec_bytes(named_color_data()[87].1);
    assert(!is_hex_digit(named_color_data()[87].0.spec_bytes()[0]));
    assert(entry_well_formed(named_color_data()[87]));
    reveal_strlit("mediumblue");
    reveal_strlit("#0000CD");
    vstd::string::is_ascii_spec_bytes(named_color_data()[88].0);
    vstd::string::is_ascii_spec_bytes(named_color_data()[88].1);
    assert(!is_hex_digit(named_color_data()[88].0.spec_bytes()[0]));
    assert(entry_well_formed(named_color_data()[88]));
    reveal_strlit("mediumorchid");
    reveal_strlit("#BA55D3");
    vstd::string::is_ascii_spec_bytes(named_color_data()[89].0);
    vstd::string::is_ascii_spec_bytes(named_color_data()[89].1);
    assert(!is_hex_digit(named_color_data()[89].0.spec_bytes()[0]));
    assert(entry_well_formed(named_color_data()[89]));
    reveal_strlit("mediumpurple");
    reveal_strlit("#9370DB");
    vstd::string::is_ascii_spec_bytes(named_color_data()[90].0);
    vstd::string::is_ascii_spec_bytes(named_color_data()[90].1);
    assert(!is_hex_digit(named_color_data()[90].0.spec_bytes()[0]));
    assert(entry_well_formed(named_color_data()[90]));
    reveal_strlit("mediumseagreen");
    reveal_strlit("#3CB371");
    vstd::string::is_ascii_spec_bytes(named_color_data()[91].0);
    vstd::string::is_ascii_spec_bytes(named_color_data()[91].1);
    assert(!is_hex_digit(named_color_data()[91].0.spec_bytes()[0]));
    assert(entry_well_formed(named_color_data()[91]));
    reveal_strlit("mediumslateblue");
    reveal_strlit("#7B68EE");
    vstd::string::is_ascii_spec_bytes(named_color_data()[92].0);
    vstd::string::is_ascii_spec_bytes(named_color_data()[92].1);
    assert(!is_hex_digit(named_color_data()[92].0.spec_bytes()[0]));
    assert(entry_well_formed(named_color_data()[92]));
    reveal_strlit("mediumspringgreen");
    reveal_strlit("#00FA9A");
    vstd::string::is_ascii_spec_bytes(named_color_data()[93].0);
    vstd::string::is_ascii_spec_bytes(named_color_data()[93].1);
    assert(!is_hex_digit(named_color_data()[93].0.spec_bytes()[0]));
    assert(entry_well_formed(named_color_data()[93]));
    reveal_strlit("mediumturquoise");
    reveal_strlit("#48D1CC");
    vstd::string::is_ascii_spec_bytes(named_color_data()[94].0);
    vstd::string::is_ascii_spec_bytes(named_color_data()[94].1);
    assert(!is_hex_digit(named_color_data()[94].0.spec_bytes()[0]));
    assert(entry_well_formed(named_color_data()[94]));
    reveal_strlit("mediumvioletred");
    reveal_strlit("#C71585");
    vstd::string::is_ascii_spec_bytes(named_color_data()[95].0);
    vstd::string::is_ascii_spec_bytes(named_color_data()[95].1);
    assert(!is_hex_digit(named_color_data()[95].0.spec_bytes()[0]));
    assert(entry_well_formed(named_color_data()[95]));
    reveal_strlit("midnightblue");
    reveal_strlit("#191970");
    vstd::string::is_ascii_spec_bytes(named_color_data()[96].0);
    vstd::string::is_ascii_spec_bytes(named_color_data()[96].1);
    assert(!is_hex_digit(named_color_data()[96].0.spec_bytes()[0]));
    assert(entry_well_formed(named_color_data()[96]));
    reveal_strlit("mintcream");
    reveal_strlit("#F5FFFA");
    vstd::string::is_ascii_spec_bytes(named_color_data()[97].0);
    vstd::string::is_ascii_spec_bytes(named_color_data()[97].1);
    assert(!is_hex_digit(named_color_data()[97].0.spec_bytes()[0]));
    assert(entry_well_formed(named_color_data()[97]));
    reveal_strlit("mistyrose");
    reveal_strlit("#FFE4E1");
    vstd::string::is_ascii_spec_bytes(named_color_data()[98].0);
    vstd::string::is_ascii_spec_bytes(named_color_data()[98].1);
    assert(!is_hex_digit(named_color_data()[98].0.spec_bytes()[0]));
    assert(entry_well_formed(named_color_data()[98]));
    reveal_strlit("moccasin");
    reveal_strlit("#FFE4B5");
    vstd::string::is_ascii_spec_bytes(named_color_data()[99].0);
    vstd::string::is_ascii_spec_bytes(named_color_data()[99].1);
    assert(!is_hex_digit(named_color_data()[99].0.spec_bytes()[0]));
    assert(entry_well_formed(named_color_data()[99]));
}

proof fn lemma_entries_well_formed_100_125()
    ensures
        forall|i: int| 100 <= i < 125 ==> #[trigger] entry_well_formed(named_color_data()[i]),
{
    reveal_strlit("navajowhite");
    reveal_strlit("#FFDEAD");
    vstd::string::is_ascii_spec_bytes(named_color_data()[100].0);
    vstd::string::is_ascii_spec_bytes(named_color_data()[100].1);
    assert(!is_hex_digit(named_color_data()[100].0.spec_bytes()[0]));
    assert(entry_well_formed(named_color_data()[100]));
    reveal_strlit("navy");
    reveal_strlit("#000080");
    vstd::string::is_ascii_spec_bytes(named_color_data()[101].0);
    vstd::string::is_ascii_spec_bytes(named_color_data()[101].1);
    assert(!is_hex_digit(named_color_data()[101].0.spec_bytes()[0]));
    assert(entry_well_formed(named_color_data()[101]));
    reveal_strlit("oldlace");
    reveal_strlit("#FDF5E6");
    vstd::string::is_ascii_spec_bytes(named_color_data()[102].0);
    vstd::string::is_ascii_spec_bytes(named_color_data()[102].1);
    assert(!is_hex_digit(named_color_data()[102].0.spec_bytes()[0]));
    assert(entry_well_formed(named_color_data()[102]));
    reveal_strlit("olive");
    reveal_strlit("#808000");
    vstd::string::is_ascii_spec_bytes(named_color_data()[103].0);
    vstd::string::is_ascii_spec_bytes(named_color_data()[103].1);
    assert(!is_hex_digit(named_color_data()[103].0.spec_bytes()[0]));
    assert(entry_well_formed(named_color_data()[103]));
    reveal_strlit("olivedrab");
    reveal_strlit("#6B8E23");
    vstd::string::is_ascii_spec_bytes(named_color_data()[104].0);
    vstd::string::is_ascii_spec_bytes(named_color_data()[104].1);
    assert(!is_hex_digit(named_color_data()[104].0.spec_bytes()[0]));
    assert(entry_well_formed(named_color_data()[104]));
    reveal_strlit("orange");
    reveal_strlit("#FFA500");
    vstd::string::is_ascii_spec_bytes(named_color_data()[105].0);
    vstd::string::is_ascii_spec_bytes(named_color_data()[105].1);
    assert(!is_hex_digit(named_color_data()[105].0.spec_bytes()[0]));
    assert(entry_well_formed(named_color_data()[105]));
    reveal_strlit("orangered");
    reveal_strlit("#FF4500");
    vstd::string::is_ascii_spec_bytes(named_color_data()[106].0);
    vstd::string::is_ascii_spec_bytes(named_color_data()[106].1);
    assert(!is_hex_digit(named_color_data()[106].0.spec_bytes()[0]));
    assert(entry_well_formed(named_color_data()[106]));
    reveal_strlit("orchid");
    reveal_strlit("#DA70D6");
    vstd::string::is_ascii_spec_bytes(named_color_data()[107].0);
    vstd::string::is_ascii_spec_bytes(named_color_data()[107].1);
    assert(!is_hex_digit(named_color_data()[107].0.spec_bytes()[0]));
    assert(entry_well_formed(named_color_data()[107]));
    reveal_strlit("palegoldenrod");
    reveal_strlit("#EEE8AA");
    vstd::string::is_ascii_spec_bytes(named_color_data()[108].0);
    vstd::string::is_ascii_spec_bytes(named_color_data()[108].1);
    assert(!is_hex_digit(named_color_data()[108].0.spec_bytes()[0]));
    assert(entry_well_formed(named_color_data()[108]));
    reveal_strlit("palegreen");
    reveal_strlit("#98FB98");
    vstd::string::is_ascii_spec_bytes(named_color_data()[109].0);
    vstd::string::is_ascii_spec_bytes(named_color_data()[109].1);
    assert(!is_hex_digit(named_color_data()[109].0.spec_bytes()[0]));
    assert(entry_well_formed(named_color_data()[109]));
    reveal_strlit("paleturquoise");
    reveal_strlit("#AFEEEE");
    vstd::string::is_ascii_spec_bytes(named_color_data()[110].0);
    vstd::string::is_ascii_spec_bytes(named_color_data()[110].1);
    assert(!is_hex_digit(named_color_data()[110].0.spec_bytes()[0]));
    assert(entry_well_formed(named_color_data()[110]));
    reveal_strlit("palevioletred");
    reveal_strlit("#DB7093");
    vstd::string::is_ascii_spec_bytes(named_color_data()[111].0);
    vstd::string::is_ascii_spec_bytes(named_color_data()[111].1);
    assert(!is_hex_digit(named_color_data()[111].0.spec_bytes()[0]));
    assert(entry_well_formed(named_color_data()[111]));
    reveal_strlit("papayawhip");
    reveal_strlit("#FFEFD5");
    vstd::string::is_ascii_spec_bytes(named_color_data()[112].0);
    vstd::string::is_ascii_spec_bytes(named_color_data()[112].1);
    assert(!is_hex_digit(named_color_data()[112].0.spec_bytes()[0]));
    assert(entry_well_formed(named_color_data()[112]));
    reveal_strlit("peachpuff");
    reveal_strlit("#FFDAB9");
    vstd::string::is_ascii_spec_bytes(named_color_data()[113].0);
    vstd::string::is_ascii_spec_bytes(named_color_data()[113].1);
    assert(!is_hex_digit(named_color_data()[113].0.spec_bytes()[0]));
    assert(entry_well_formed(named_color_data()[113]));
    reveal_strlit("peru");
    reveal_strlit("#CD853F");
    vstd::string::is_ascii_spec_bytes(named_color_data()[114].0);
    vstd::string::is_ascii_spec_bytes(named_color_data()[114].1);
    assert(!is_hex_digit(named_color_data()[114].0.spec_bytes()[0]));
    assert(entry_well_formed(named_color_data()[114]));
    reveal_strlit("pink");
    reveal_strlit("#FFC0CB");
    vstd::string::is_ascii_spec_bytes(named_color_data()[115].0);
    vstd::string::is_ascii_spec_bytes(named_color_data()[115].1);
    assert(!is_hex_digit(named_color_data()[115].0.spec_bytes()[0]));
    assert(entry_well_formed(named_color_data()[115]));
    reveal_strlit("plum");
    reveal_strlit("#DDA0DD");
    vstd::string::is_ascii_spec_bytes(named_color_data()[116].0);
    vstd::string::is_ascii_spec_bytes(named_color_data()[116].1);
    assert(!is_hex_digit(named_color_data()[116].0.spec_bytes()[0]));
    assert(entry_well_formed(named_color_data()[116]));
    reveal_strlit("powderblue");
    reveal_strlit("#B0E0E6");
    vstd::string::is_ascii_spec_bytes(named_color_data()[117].0);
    vstd::string::is_ascii_spec_bytes(named_color_data()[117].1);
    assert(!is_hex_digit(named_color_data()[117].0.spec_bytes()[0]));
    assert(entry_well_formed(named_color_data()[117]));
    reveal_strlit("purple");
    reveal_strlit("#800080");
    vstd::string::is_ascii_spec_bytes(named_color_data()[118].0);
    vstd::string::is_ascii_spec_bytes(named_color_data()[118].1);
    assert(!is_hex_digit(named_color_data()[118].0.spec_bytes()[0]));
    assert(entry_well_formed(named_color_data()[118]));
    reveal_strlit("rebeccapurple");
    reveal_strlit("#663399");
    vstd::string::is_ascii_spec_bytes(named_color_data()[119].0);
    vstd::string::is_ascii_spec_bytes(named_color_data()[119].1);
    assert(!is_hex_digit(named_color_data()[119].0.spec_bytes()[0]));
    assert(entry_well_formed(named_color_data()[119]));
    reveal_strlit("red");
    reveal_strlit("#FF0000");
    vstd::string::is_ascii_spec_bytes(named_color_data()[120].0);
    vstd::string::is_ascii_spec_bytes(named_color_data()[120].1);
    assert(!is_hex_digit(named_color_data()[120].0.spec_bytes()[0]));
    assert(entry_well_formed(named_color_data()[120]));
    reveal_strlit("rosybrown");
    reveal_strlit("#BC8F8F");
    vstd::string::is_ascii_spec_bytes(named_color_data()[121].0);
    vstd::string::is_ascii_spec_bytes(named_color_data()[121].1);
    assert(!is_hex_digit(named_color_data()[121].0.spec_bytes()[0]));
    assert(entry_well_formed(named_color_data()[121]));
    reveal_strlit("royalblue");
    reveal_strlit("#4169E1");
    vstd::string::is_ascii_spec_bytes(named_color_data()[122].0);
    vstd::string::is_ascii_spec_bytes(named_color_data()[122].1);
    assert(!is_hex_digit(named_color_data()[122].0.spec_bytes()[0]));
    assert(entry_well_formed(named_color_data()[122]));
    reveal_strlit("saddlebrown");
    reveal_strlit("#8B4513");
    vstd::string::is_ascii_spec_bytes(named_color_data()[123].0);
    vstd::string::is_ascii_spec_bytes(named_color_data()[123].1);
    assert(!is_hex_digit(named_color_data()[123].0.spec_bytes()[0]));
    assert(entry_well_formed(named_color_data()[123]));
    reveal_strlit("salmon");
    reveal_strlit("#FA8072");
    vstd::string::is_ascii_spec_bytes(named_color_data()[124].0);
    vstd::string::is_ascii_spec_bytes(named_color_data()[124].1);
    assert(!is_hex_digit(named_color_data()[124].0.spec_bytes()[0]));
    assert(entry_well_formed(named_color_data()[124]));
}

proof fn lemma_entries_well_formed_125_148()
    ensures
        forall|i: int| 125 <= i < 148 ==> #[trigger] entry_well_formed(named_color_data()[i]),
{
    reveal_strlit("sandybrown");
    reveal_strlit("#F4A460");
    vstd::string::is_ascii_spec_bytes(named_color_data()[125].0);
    vstd::string::is_ascii_spec_bytes(named_color_data()[125].1);
    assert(!is_hex_digit(named_color_data()[125].0.spec_bytes()[0]));
    assert(entry_well_formed(named_color_data()[125]));
    reveal_strlit("seagreen");
    reveal_strlit("#2E8B57");
    vstd::string::is_ascii_spec_bytes(named_color_data()[126].0);
    vstd::string::is_ascii_spec_bytes(named_color_data()[126].1);
    assert(!is_hex_digit(named_color_data()[126].0.spec_bytes()[0]));
    assert(entry_well_formed(named_color_data()[126]));
    reveal_strlit("seashell");
    reveal_strlit("#FFF5EE");
    vstd::string::is_ascii_spec_bytes(named_color_data()[127].0);
    vstd::string::is_ascii_spec_bytes(named_color_data()[127].1);
    assert(!is_hex_digit(named_color_data()[127].0.spec_bytes()[0]));
    assert(entry_well_formed(named_color_data()[127]));
    reveal_strlit("sienna");
    reveal_strlit("#A0522D");
    vstd::string::is_ascii_spec_bytes(named_color_data()[128].0);
    vstd::string::is_ascii_spec_bytes(named_color_data()[128].1);
    assert(!is_hex_digit(named_color_data()[128].0.spec_bytes()[0]));
    assert(entry_well_formed(named_color_data()[128]));
    reveal_strlit("silver");
    reveal_strlit("#C0C0C0");
    vstd::string::is_ascii_spec_bytes(named_color_data()[129].0);
    vstd::string::is_ascii_spec_bytes(named_color_data()[129].1);
    assert(!is_hex_digit(named_color_data()[129].0.spec_bytes()[0]));
    assert(entry_well_formed(named_color_data()[129]));
    reveal_strlit("skyblue");
    reveal_strlit("#87CEEB");
    vstd::string::is_ascii_spec_bytes(named_color_data()[130].0);
    vstd::string::is_ascii_spec_bytes(named_color_data()[130].1);
    assert(!is_hex_digit(named_color_data()[130].0.spec_bytes()[0]));
    assert(entry_well_formed(named_color_data()[130]));
    reveal_strlit("slateblue");
    reveal_strlit("#6A5ACD");
    vstd::string::is_ascii_spec_bytes(named_color_data()[131].0);
    vstd::string::is_ascii_spec_bytes(named_color_data()[131].1);
    assert(!is_hex_digit(named_color_data()[131].0.spec_bytes()[0]));
    assert(entry_well_formed(named_color_data()[131]));
    reveal_strlit("slategray");
    reveal_strlit("#708090");
    vstd::string::is_ascii_spec_bytes(named_color_data()[132].0);
    vstd::string::is_ascii_spec_bytes(named_color_data()[132].1);
    assert(!is_hex_digit(named_color_data()[132].0.spec_bytes()[0]));
    assert(entry_well_formed(named_color_data()[132]));
    reveal_strlit("slategrey");
    reveal_strlit("#708090");
    vstd::string::is_ascii_spec_bytes(named_color_data()[133].0);
    vstd::string::is_ascii_spec_bytes(named_color_data()[133].1);
    assert(!is_hex_digit(named_color_data()[133].0.spec_bytes()[0]));
    assert(entry_well_formed(named_color_data()[133]));
    reveal_strlit("snow");
    reveal_strlit("#FFFAFA");
    vstd::string::is_ascii_spec_bytes(named_color_data()[134].0);
    vstd::string::is_ascii_spec_bytes(named_color_data()[134].1);
    assert(!is_hex_digit(named_color_data()[134].0.spec_bytes()[0]));
    assert(entry_well_formed(named_color_data()[134]));
    reveal_strlit("springgreen");
    reveal_strlit("#00FF7F");
    vstd::string::is_ascii_spec_bytes(named_color_data()[135].0);
    vstd::string::is_ascii_spec_bytes(named_color_data()[135].1);
    assert(!is_hex_digit(named_color_data()[135].0.spec_bytes()[0]));
    assert(entry_well_formed(named_color_data()[135]));
    reveal_strlit("steelblue");
    reveal_strlit("#4682B4");
    vstd::string::is_ascii_spec_bytes(named_color_data()[136].0);
    vstd::string::is_ascii_spec_bytes(named_color_data()[136].1);
    assert(!is_hex_digit(named_color_data()[136].0.spec_bytes()[0]));
    assert(entry_well_formed(named_color_data()[136]));
    reveal_strlit("tan");
    reveal_strlit("#D2B48C");
    vstd::string::is_ascii_spec_bytes(named_color_data()[137].0);
    vstd::string::is_ascii_spec_bytes(named_color_data()[137].1);
    assert(!is_hex_digit(named_color_data()[137].0.spec_bytes()[0]));
    assert(entry_well_formed(named_color_data()[137]));
    reveal_strlit("teal");
    reveal_strlit("#008080");
    vstd::string::is_ascii_spec_bytes(named_color_data()[138].0);
    vstd::string::is_ascii_spec_bytes(named_color_data()[138].1);
    assert(!is_hex_digit(named_color_data()[138].0.spec_bytes()[0]));
    assert(entry_well_formed(named_color_data()[138]));
    reveal_strlit("thistle");
    reveal_strlit("#D8BFD8");
    vstd::string::is_ascii_spec_bytes(named_color_data()[139].0);
    vstd::string::is_ascii_spec_bytes(named_color_data()[139].1);
    assert(!is_hex_digit(named_color_data()[139].0.spec_bytes()[0]));
    assert(entry_well_formed(named_color_data()[139]));
    reveal_strlit("tomato");
    reveal_strlit("#FF6347");
    vstd::string::is_ascii_spec_bytes(named_color_data()[140].0);
    vstd::string::is_ascii_spec_bytes(named_color_data()[140].1);
    assert(!is_hex_digit(named_color_data()[140].0.spec_bytes()[0]));
    assert(entry_well_formed(named_color_data()[140]));
    reveal_strlit("turquoise");
    reveal_strlit("#40E0D0");
    vstd::string::is_ascii_spec_bytes(named_color_data()[141].0);
    vstd::string::is_ascii_spec_bytes(named_color_data()[141].1);
    assert(!is_hex_digit(named_color_data()[141].0.spec_bytes()[0]));
    assert(entry_well_formed(named_color_data()[141]));
    reveal_strlit("violet");
    reveal_strlit("#EE82EE");
    vstd::string::is_ascii_spec_bytes(named_color_data()[142].0);
    vstd::string::is_ascii_spec_bytes(named_color_data()[142].1);
    assert(!is_hex_digit(named_color_data()[142].0.spec_bytes()[0]));
    assert(entry_well_formed(named_color_data()[142]));
    reveal_strlit("wheat");
    reveal_strlit("#F5DEB3");
    vstd::string::is_ascii_spec_bytes(named_color_data()[143].0);
    vstd::string::is_ascii_spec_bytes(named_color_data()[143].1);
    assert(!is_hex_digit(named_color_data()[143].0.spec_bytes()[0]));
    assert(entry_well_formed(named_color_data()[143]));
    reveal_strlit("white");
    reveal_strlit("#FFFFFF");
    vstd::string::is_ascii_spec_bytes(named_color_data()[144].0);
    vstd::string::is_ascii_spec_bytes(named_color_data()[144].1);
    assert(!is_hex_digit(named_color_data()[144].0.spec_bytes()[0]));
    assert(entry_well_formed(named_color_data()[144]));
    reveal_strlit("whitesmoke");
    reveal_strlit("#F5F5F5");
    vstd::string::is_ascii_spec_bytes(named_color_data()[145].0);
    vstd::string::is_ascii_spec_bytes(named_color_data()[145].1);
    assert(!is_hex_digit(named_color_data()[145].0.spec_bytes()[0]));
    assert(entry_well_formed(named_color_data()[145]));
    reveal_strlit("yellow");
    reveal_strlit("#FFFF00");
    vstd::string::is_ascii_spec_bytes(named_color_data()[146].0);
    vstd::string::is_ascii_spec_bytes(named_color_data()[146].1);
    assert(!is_hex_digit(named_color_data()[146].0.spec_bytes()[0]));
    assert(entry_well_formed(named_color_data()[146]));
    reveal_strlit("yellowgreen");
    reveal_strlit("#9ACD32");
    vstd::string::is_ascii_spec_bytes(named_color_data()[147].0);
    vstd::string::is_ascii_spec_bytes(named_color_data()[147].1);
    assert(!is_hex_digit(named_color_data()[147].0.spec_bytes()[0]));
    assert(entry_well_formed(named_color_data()[147]));
}

/// Every entry of the vocabulary is well formed.
pub proof fn lemma_named_color_data_well_formed()
    ensures
        named_color_data().len() == NUM_COLORS,
        forall|i: int|
            0 <= i < named_color_data().len() ==> #[trigger] entry_well_formed(
                named_color_data()[i],
            ),
{
    lemma_entries_well_formed_0_25();
    lemma_entries_well_formed_25_50();
    lemma_entries_well_formed_50_75();
    lemma_entries_well_formed_75_100();
    lemma_entries_well_formed_100_125();
    lemma_entries_well_formed_125_148();
}

} // verus!
