//! The legacy genre table: numbers that stand for the names of genres.

use vstd::prelude::*;
use vstd::string::StrSliceExecFns;

verus! {

/// The place in the table that `text` names: the numbers `0` to `79` written without
/// a leading zero, then `RX` and `CR`.
pub open spec fn genre_code(text: Seq<char>) -> Option<int> {
    if text.len() == 1 && '0' <= text[0] <= '9' {
        Some(text[0] as int - 0x30)
    } else if text.len() == 2 && '1' <= text[0] <= '7' && '0' <= text[1] <= '9' {
        Some((text[0] as int - 0x30) * 10 + (text[1] as int - 0x30))
    } else if text.len() == 2 && text[0] == 'R' && text[1] == 'X' {
        Some(80)
    } else if text.len() == 2 && text[0] == 'C' && text[1] == 'R' {
        Some(81)
    } else {
        None
    }
}

/// The name at place `code` of the table.
pub open spec fn genre_title(code: int) -> Seq<char> {
    if code == 0 {
        "Blues"@
    } else if code == 1 {
        "Classic Rock"@
    } else if code == 2 {
        "Country"@
    } else if code == 3 {
        "Dance"@
    } else if code == 4 {
        "Disco"@
    } else if code == 5 {
        "Funk"@
    } else if code == 6 {
        "Grunge"@
    } else if code == 7 {
        "Hip-Hop"@
    } else if code == 8 {
        "Jazz"@
    } else if code == 9 {
        "Metal"@
    } else if code == 10 {
        "New Age"@
    } else if code == 11 {
        "Oldies"@
    } else if code == 12 {
        "Other"@
    } else if code == 13 {
        "Pop"@
    } else if code == 14 {
        "R&B"@
    } else if code == 15 {
        "Rap"@
    } else if code == 16 {
        "Reggae"@
    } else if code == 17 {
        "Rock"@
    } else if code == 18 {
        "Techno"@
    } else if code == 19 {
        "Industrial"@
    } else if code == 20 {
        "Alternative"@
    } else if code == 21 {
        "Ska"@
    } else if code == 22 {
        "Death Metal"@
    } else if code == 23 {
        "Pranks"@
    } else if code == 24 {
        "Soundtrack"@
    } else if code == 25 {
        "Euro-Techno"@
    } else if code == 26 {
        "Ambient"@
    } else if code == 27 {
        "Trip-Hop"@
    } else if code == 28 {
        "Vocal"@
    } else if code == 29 {
        "Jazz+Funk"@
    } else if code == 30 {
        "Fusion"@
    } else if code == 31 {
        "Trance"@
    } else if code == 32 {
        "Classical"@
    } else if code == 33 {
        "Instrumental"@
    } else if code == 34 {
        "Acid"@
    } else if code == 35 {
        "House"@
    } else if code == 36 {
        "Game"@
    } else if code == 37 {
        "Sound Clip"@
    } else if code == 38 {
        "Gospel"@
    } else if code == 39 {
        "Noise"@
    } else if code == 40 {
        "AlternRock"@
    } else if code == 41 {
        "Bass"@
    } else if code == 42 {
        "Soul"@
    } else if code == 43 {
        "Punk"@
    } else if code == 44 {
        "Space"@
    } else if code == 45 {
        "Meditative"@
    } else if code == 46 {
        "Instrumental Pop"@
    } else if code == 47 {
        "Instrumental Rock"@
    } else if code == 48 {
        "Ethnic"@
    } else if code == 49 {
        "Gothic"@
    } else if code == 50 {
        "Darkwave"@
    } else if code == 51 {
        "Techno-Industrial"@
    } else if code == 52 {
        "Electronic"@
    } else if code == 53 {
        "Pop-Folk"@
    } else if code == 54 {
        "Eurodance"@
    } else if code == 55 {
        "Dream"@
    } else if code == 56 {
        "Southern Rock"@
    } else if code == 57 {
        "Comedy"@
    } else if code == 58 {
        "Cult"@
    } else if code == 59 {
        "Gangsta"@
    } else if code == 60 {
        "Top 40"@
    } else if code == 61 {
        "Christian Rap"@
    } else if code == 62 {
        "Pop/Funk"@
    } else if code == 63 {
        "Jungle"@
    } else if code == 64 {
        "Native American"@
    } else if code == 65 {
        "Cabaret"@
    } else if code == 66 {
        "New Wave"@
    } else if code == 67 {
        "Psychedelic"@
    } else if code == 68 {
        "Rave"@
    } else if code == 69 {
        "Showtunes"@
    } else if code == 70 {
        "Trailer"@
    } else if code == 71 {
        "Lo-Fi"@
    } else if code == 72 {
        "Tribal"@
    } else if code == 73 {
        "Acid Punk"@
    } else if code == 74 {
        "Acid Jazz"@
    } else if code == 75 {
        "Polka"@
    } else if code == 76 {
        "Retro"@
    } else if code == 77 {
        "Musical"@
    } else if code == 78 {
        "Rock & Roll"@
    } else if code == 79 {
        "Hard Rock"@
    } else if code == 80 {
        "Remix"@
    } else {
        "Cover"@
    }
}

/// What a genre reads as: the name that a code stands for, and any other text as it is.
pub open spec fn genre_text(text: Seq<char>) -> Seq<char> {
    match genre_code(text) {
        Some(code) => genre_title(code),
        None => text,
    }
}

/// The genres of a frame, each read by `genre_text`.
pub open spec fn genre_texts(texts: Seq<Seq<char>>) -> Seq<Seq<char>> {
    Seq::new(texts.len(), |i: int| genre_text(texts[i]))
}

/// Looks up the name at place `code` of the table.
pub fn genre_title_of(code: u8) -> (r: &'static str)
    requires
        code < 82,
    ensures
        r@ == genre_title(code as int),
{
    match code {
        0 => "Blues",
        1 => "Classic Rock",
        2 => "Country",
        3 => "Dance",
        4 => "Disco",
        5 => "Funk",
        6 => "Grunge",
        7 => "Hip-Hop",
        8 => "Jazz",
        9 => "Metal",
        10 => "New Age",
        11 => "Oldies",
        12 => "Other",
        13 => "Pop",
        14 => "R&B",
        15 => "Rap",
        16 => "Reggae",
        17 => "Rock",
        18 => "Techno",
        19 => "Industrial",
        20 => "Alternative",
        21 => "Ska",
        22 => "Death Metal",
        23 => "Pranks",
        24 => "Soundtrack",
        25 => "Euro-Techno",
        26 => "Ambient",
        27 => "Trip-Hop",
        28 => "Vocal",
        29 => "Jazz+Funk",
        30 => "Fusion",
        31 => "Trance",
        32 => "Classical",
        33 => "Instrumental",
        34 => "Acid",
        35 => "House",
        36 => "Game",
        37 => "Sound Clip",
        38 => "Gospel",
        39 => "Noise",
        40 => "AlternRock",
        41 => "Bass",
        42 => "Soul",
        43 => "Punk",
        44 => "Space",
        45 => "Meditative",
        46 => "Instrumental Pop",
        47 => "Instrumental Rock",
        48 => "Ethnic",
        49 => "Gothic",
        50 => "Darkwave",
        51 => "Techno-Industrial",
        52 => "Electronic",
        53 => "Pop-Folk",
        54 => "Eurodance",
        55 => "Dream",
        56 => "Southern Rock",
        57 => "Comedy",
        58 => "Cult",
        59 => "Gangsta",
        60 => "Top 40",
        61 => "Christian Rap",
        62 => "Pop/Funk",
        63 => "Jungle",
        64 => "Native American",
        65 => "Cabaret",
        66 => "New Wave",
        67 => "Psychedelic",
        68 => "Rave",
        69 => "Showtunes",
        70 => "Trailer",
        71 => "Lo-Fi",
        72 => "Tribal",
        73 => "Acid Punk",
        74 => "Acid Jazz",
        75 => "Polka",
        76 => "Retro",
        77 => "Musical",
        78 => "Rock & Roll",
        79 => "Hard Rock",
        80 => "Remix",
        _ => "Cover",
    }
}

/// Finds the place in the table that `text` names.
pub fn genre_code_of(text: &str) -> (r: Option<u8>)
    ensures
        match r {
            Some(code) => code < 82 && genre_code(text@) == Some(code as int),
            None => genre_code(text@) is None,
        },
{
    let n: usize = text.unicode_len();
    if n == 1 {
        let c: char = text.get_char(0);
        if '0' <= c && c <= '9' {
            Some(c as u8 - 0x30)
        } else {
            None
        }
    } else if n == 2 {
        let a: char = text.get_char(0);
        let b: char = text.get_char(1);
        if '1' <= a && a <= '7' && '0' <= b && b <= '9' {
            Some((a as u8 - 0x30) * 10 + (b as u8 - 0x30))
        } else if a == 'R' && b == 'X' {
            Some(80)
        } else if a == 'C' && b == 'R' {
            Some(81)
        } else {
            None
        }
    } else {
        None
    }
}

/// Reads one genre: a code gives its name, any other text stays.
pub fn expand_genre(text: &str) -> (r: String)
    ensures
        r@ == genre_text(text@),
{
    match genre_code_of(text) {
        Some(code) => genre_title_of(code).to_owned(),
        None => text.to_owned(),
    }
}

/// Reads every genre of a frame.
pub fn expand_genres(texts: &Vec<String>) -> (r: Vec<String>)
    ensures
        r.deep_view() == genre_texts(texts.deep_view()),
{
    let mut genres: Vec<String> = Vec::new();
    let mut i: usize = 0;
    while i < texts.len()
        invariant
            i <= texts@.len(),
            genres@.len() == i,
            forall|j: int| 0 <= j < i ==> (#[trigger] genres@[j])@ == genre_text(texts@[j]@),
        decreases texts@.len() - i,
    {
        let genre = expand_genre(texts[i].as_str());
        genres.push(genre);
        i = i + 1;
    }
    assert(genres.deep_view() =~= genre_texts(texts.deep_view()));
    genres
}

} // verus!
