//! Airport scenery packages found in the simulator's add-on folders.

use crate::pattern::{
    capture_first_group, compile, error_text, first_group, pattern_is_valid, pattern_of,
};
use regex::Regex;
use crate::text::{
    char_to_uppercase, char_uppercase_of, chars_of, extend, join, join_with, lowercase_of,
    same_text, split, split_on, starts_with, string_of, text_of, to_lowercase, to_uppercase,
    uppercase_of, views,
};
use vstd::prelude::*;

verus! {

/// One airport scenery package.
#[derive(Debug)]
pub struct AirportInfo {
    pub icao: String,
    pub title: String,
    pub path: String,
    pub folder_type: String,
    pub developer: String,
    pub fsversion: String,
    pub name: String,
}

/// The developer and the simulator version that the pieces of a package
/// folder's name give, where `lowered_first` is the first piece in lower
/// case. In a folder of streamed packages with two pieces or more, of which
/// the first in lower case begins with `fs`, that piece is the version and
/// the second piece the developer. Everywhere else the first piece is the
/// developer and no version is known; without any piece the developer is
/// `Unknown`.
pub open spec fn assigned(parts: Seq<Seq<char>>, streamed: bool, lowered_first: Seq<char>) -> (
    Seq<char>,
    Seq<char>,
) {
    if parts.len() == 0 {
        ("Unknown"@, Seq::<char>::empty())
    } else if streamed && parts.len() >= 2 && "fs"@.is_prefix_of(lowered_first) {
        (parts[1], lowered_first)
    } else {
        (parts[0], Seq::<char>::empty())
    }
}

/// The developer and the simulator version that a package folder's name
/// gives: the name is read as pieces separated by hyphens, to which
/// `assigned` applies.
pub open spec fn developer_and_version(folder_name: Seq<char>, folder_type: Seq<char>) -> (
    Seq<char>,
    Seq<char>,
) {
    let parts = split_on(folder_name, '-');
    assigned(parts, folder_type == "StreamedPackages"@, lowercase_of(parts[0]))
}

/// Assigns developer and version to the pieces of a package folder's name,
/// given the first piece in lower case.
pub fn assign_developer_and_version(parts: &Vec<Vec<char>>, streamed: bool, lowered_first: String) -> (r:
    (String, String))
    ensures
        (r.0@, r.1@) == assigned(views(parts@), streamed, lowered_first@),
{
    if parts.len() == 0 {
        return (String::from_str("Unknown"), String::new());
    }
    proof {
        assert(views(parts@)[0] == parts@[0]@);
        if parts@.len() >= 2 {
            assert(views(parts@)[1] == parts@[1]@);
        }
    }
    if streamed && parts.len() >= 2 {
        let lowered = chars_of(lowered_first.as_str());
        let marker = chars_of("fs");
        if starts_with(&lowered, &marker) {
            return (string_of(&parts[1]), lowered_first);
        }
    }
    (string_of(&parts[0]), String::new())
}

/// Reads the developer and the simulator version off a package folder's name.
pub fn extract_developer_and_version(folder_name: &str, folder_type: &str) -> (r: (String, String))
    ensures
        (r.0@, r.1@) == developer_and_version(folder_name@, folder_type@),
{
    let name = chars_of(folder_name);
    let parts = split(&name, '-');
    assert(views(parts@)[0] == parts@[0]@);
    let first = string_of(&parts[0]);
    let lowered_first = to_lowercase(first.as_str());
    assign_developer_and_version(&parts, same_text(folder_type, "StreamedPackages"), lowered_first)
}

/// A word with its first character in upper case and the rest in lower case.
pub open spec fn capitalized(word: Seq<char>) -> Seq<char> {
    if word.len() == 0 {
        word
    } else {
        char_uppercase_of(word[0]) + lowercase_of(word.skip(1))
    }
}

/// The airport's name as it is shown: the hyphen-separated words of the raw
/// name, each capitalized, joined by hyphens again.
pub open spec fn display_name(raw: Seq<char>) -> Seq<char> {
    join_with(capitalized_all(split_on(raw, '-')), seq!['-'])
}

/// Every word of `words`, capitalized.
pub open spec fn capitalized_all(words: Seq<Seq<char>>) -> Seq<Seq<char>> {
    Seq::new(words.len(), |i: int| capitalized(words[i]))
}

/// The expression that finds an airport's name behind its ICAO code.
pub open spec fn name_pattern(icao: Seq<char>) -> Seq<char> {
    "(?i)-airport-"@ + icao + "-(.+?)(?:$|-\\d)"@
}

/// The airport name that a package folder's name gives for an ICAO code:
/// what follows the code up to the end or to a hyphen before a digit, shown
/// as `display_name` says; `Unknown` where the name has no such part.
pub open spec fn airport_name(folder_name: Seq<char>, icao: Seq<char>) -> Seq<char> {
    let pattern = name_pattern(icao);
    if pattern_is_valid(pattern) && first_group(pattern, folder_name) is Some {
        display_name(first_group(pattern, folder_name)->0)
    } else {
        "Unknown"@
    }
}

/// Capitalizes one word.
pub fn capitalize(word: &Vec<char>) -> (r: Vec<char>)
    ensures
        r@ == capitalized(word@),
{
    if word.len() == 0 {
        return Vec::new();
    }
    let mut out = char_to_uppercase(word[0]);
    let mut rest: Vec<char> = Vec::new();
    let mut i: usize = 1;
    while i < word.len()
        invariant
            1 <= i <= word.len(),
            rest@ == word@.subrange(1, i as int),
        decreases word.len() - i,
    {
        rest.push(word[i]);
        i = i + 1;
        assert(word@.subrange(1, i as int) =~= word@.subrange(1, i - 1).push(word@[i - 1]));
    }
    assert(word@.subrange(1, word@.len() as int) =~= word@.skip(1));
    let rest_text = string_of(&rest);
    let lowered = to_lowercase(rest_text.as_str());
    let lowered_chars = chars_of(lowered.as_str());
    extend(&mut out, &lowered_chars);
    out
}

/// Formats a raw airport name for display.
pub fn format_airport_name(raw: &str) -> (r: String)
    ensures
        r@ == display_name(raw@),
{
    let raw_chars = chars_of(raw);
    let words = split(&raw_chars, '-');
    let mut shown: Vec<Vec<char>> = Vec::new();
    let mut i: usize = 0;
    while i < words.len()
        invariant
            i <= words.len(),
            views(words@) == split_on(raw@, '-'),
            shown@.len() == i,
            forall|j: int| 0 <= j < i ==> (#[trigger] shown@[j])@ == capitalized(words@[j]@),
        decreases words.len() - i,
    {
        let word = capitalize(&words[i]);
        shown.push(word);
        i = i + 1;
    }
    assert(views(shown@) =~= capitalized_all(views(words@)));
    let mut hyphen: Vec<char> = Vec::new();
    hyphen.push('-');
    assert(hyphen@ =~= seq!['-']);
    let joined = join(&shown, &hyphen);
    string_of(&joined)
}

/// Reads the airport's name off a package folder's name, given the ICAO code
/// that was found in it.
pub fn extract_airport_name(folder_name: &str, icao: &str) -> (r: String)
    ensures
        r@ == airport_name(folder_name@, icao@),
{
    let mut pattern = String::from_str("(?i)-airport-");
    pattern.append(icao);
    pattern.append("-(.+?)(?:$|-\\d)");
    match compile(pattern.as_str()) {
        Ok(re) => match capture_first_group(&re, folder_name) {
            Some(raw) => format_airport_name(raw.as_str()),
            None => String::from_str("Unknown"),
        },
        Err(_) => String::from_str("Unknown"),
    }
}

/// An `AirportInfo` as plain text values.
pub struct AirportView {
    pub icao: Seq<char>,
    pub title: Seq<char>,
    pub path: Seq<char>,
    pub folder_type: Seq<char>,
    pub developer: Seq<char>,
    pub fsversion: Seq<char>,
    pub name: Seq<char>,
}

impl View for AirportInfo {
    type V = AirportView;

    open spec fn view(&self) -> AirportView {
        AirportView {
            icao: self.icao@,
            title: self.title@,
            path: self.path@,
            folder_type: self.folder_type@,
            developer: self.developer@,
            fsversion: self.fsversion@,
            name: self.name@,
        }
    }
}

/// The views of a list of airports.
pub open spec fn airports_view(v: Seq<AirportInfo>) -> Seq<AirportView> {
    Seq::new(v.len(), |i: int| v[i]@)
}

/// How many levels below an add-on folder package folders are looked for.
pub const MAX_SCAN_DEPTH: usize = 3;

/// One entry that walking an add-on folder came across.
pub struct FolderEntry {
    /// The entry's full path.
    pub path: String,
    /// How many levels below the add-on folder it lies; the folder itself
    /// lies at level 0.
    pub depth: usize,
    /// Its last component, where it has one that is valid text.
    pub file_name: Option<String>,
    /// Whether it is a directory.
    pub is_dir: bool,
}

/// An add-on folder together with what was found below it.
pub struct ScannedFolder {
    pub path: String,
    /// `Community` or `StreamedPackages`.
    pub folder_type: String,
    pub entries: Vec<FolderEntry>,
}

/// The expression that finds the ICAO code in a package folder's name, which
/// is searched in upper case.
pub open spec fn icao_pattern() -> Seq<char> {
    "(?i)-airport-([A-Z0-9]{4})-"@
}

/// The ICAO code that an entry's name carries: only directories with a name
/// are looked at, and only down to `MAX_SCAN_DEPTH` levels.
pub open spec fn entry_icao(e: FolderEntry) -> Option<Seq<char>> {
    if e.is_dir && e.depth <= MAX_SCAN_DEPTH && e.file_name is Some {
        first_group(icao_pattern(), uppercase_of(e.file_name->0@))
    } else {
        None
    }
}

/// The airport that is listed for a package folder in which `icao` was found.
pub open spec fn airport_of(
    folder_name: Seq<char>,
    path: Seq<char>,
    folder_type: Seq<char>,
    icao: Seq<char>,
) -> AirportView {
    AirportView {
        icao,
        title: folder_name + " ("@ + folder_type + ")"@,
        path,
        folder_type,
        developer: developer_and_version(folder_name, folder_type).0,
        fsversion: developer_and_version(folder_name, folder_type).1,
        name: airport_name(folder_name, icao),
    }
}

/// Whether an airport with this code is already listed for this folder type.
pub open spec fn listed(found: Seq<AirportView>, folder_type: Seq<char>, icao: Seq<char>) -> bool {
    exists|k: int|
        0 <= k < found.len() && (#[trigger] found[k]).folder_type == folder_type && found[k].icao
            == icao
}

/// The list after a package folder with this code was seen: the airport is
/// added unless its code is already listed for the folder type.
pub open spec fn with_sighting(
    found: Seq<AirportView>,
    folder_name: Seq<char>,
    path: Seq<char>,
    folder_type: Seq<char>,
    icao: Seq<char>,
) -> Seq<AirportView> {
    if listed(found, folder_type, icao) {
        found
    } else {
        found.push(airport_of(folder_name, path, folder_type, icao))
    }
}

/// The list after one entry of a folder was looked at.
pub open spec fn scan_entry(found: Seq<AirportView>, folder_type: Seq<char>, e: FolderEntry) -> Seq<
    AirportView,
> {
    match entry_icao(e) {
        Some(icao) => with_sighting(found, e.file_name->0@, e.path@, folder_type, icao),
        None => found,
    }
}

/// The list after the given entries of a folder were looked at, in order.
pub open spec fn scan_entries(
    found: Seq<AirportView>,
    folder_type: Seq<char>,
    entries: Seq<FolderEntry>,
) -> Seq<AirportView>
    decreases entries.len(),
{
    if entries.len() == 0 {
        found
    } else {
        scan_entry(
            scan_entries(found, folder_type, entries.drop_last()),
            folder_type,
            entries.last(),
        )
    }
}

/// The list after the given folders were scanned, in order.
pub open spec fn scan_folders(found: Seq<AirportView>, folders: Seq<ScannedFolder>) -> Seq<
    AirportView,
>
    decreases folders.len(),
{
    if folders.len() == 0 {
        found
    } else {
        scan_entries(
            scan_folders(found, folders.drop_last()),
            folders.last().folder_type@,
            folders.last().entries@,
        )
    }
}

/// No two airports of the list share both folder type and ICAO code.
pub open spec fn distinct(found: Seq<AirportView>) -> bool {
    forall|i: int, j: int|
        0 <= i < j < found.len() ==> !((#[trigger] found[i]).folder_type == (
        #[trigger] found[j]).folder_type && found[i].icao == found[j].icao)
}

/// Tests whether an airport with this code is listed for this folder type.
pub fn is_listed(found: &Vec<AirportInfo>, folder_type: &str, icao: &str) -> (r: bool)
    ensures
        r == listed(airports_view(found@), folder_type@, icao@),
{
    let mut k: usize = 0;
    while k < found.len()
        invariant
            k <= found.len(),
            forall|j: int|
                0 <= j < k ==> !((#[trigger] airports_view(found@)[j]).folder_type
                    == folder_type@ && airports_view(found@)[j].icao == icao@),
        decreases found.len() - k,
    {
        if same_text(found[k].folder_type.as_str(), folder_type) && same_text(
            found[k].icao.as_str(),
            icao,
        ) {
            assert(airports_view(found@)[k as int].folder_type == folder_type@);
            return true;
        }
        k = k + 1;
    }
    false
}

/// Records that a package folder with this ICAO code was seen: its airport
/// joins the list unless the code is already listed for the folder type.
pub fn record_sighting(
    found: &mut Vec<AirportInfo>,
    folder_name: &str,
    path: &str,
    folder_type: &str,
    icao: &str,
)
    ensures
        airports_view(final(found)@) == with_sighting(
            airports_view(old(found)@),
            folder_name@,
            path@,
            folder_type@,
            icao@,
        ),
        distinct(airports_view(old(found)@)) ==> distinct(airports_view(final(found)@)),
{
    if is_listed(found, folder_type, icao) {
        return ;
    }
    let (developer, fsversion) = extract_developer_and_version(folder_name, folder_type);
    let name = extract_airport_name(folder_name, icao);
    let mut title = String::from_str(folder_name);
    title.append(" (");
    title.append(folder_type);
    title.append(")");
    let airport = AirportInfo {
        icao: String::from_str(icao),
        title,
        path: String::from_str(path),
        folder_type: String::from_str(folder_type),
        developer,
        fsversion,
        name,
    };
    let ghost before = airports_view(found@);
    found.push(airport);
    proof {
        assert(airports_view(found@) =~= before.push(
            airport_of(folder_name@, path@, folder_type@, icao@),
        ));
        if distinct(before) {
            assert forall|i: int, j: int| 0 <= i < j < found@.len() implies !((
            #[trigger] airports_view(found@)[i]).folder_type == (#[trigger] airports_view(
                found@,
            )[j]).folder_type && airports_view(found@)[i].icao == airports_view(found@)[j].icao) by {
                if j < before.len() {
                    assert(airports_view(found@)[i] == before[i]);
                    assert(airports_view(found@)[j] == before[j]);
                } else {
                    assert(airports_view(found@)[i] == before[i]);
                }
            }
        }
    }
}

/// Looks for the ICAO code in a package folder's name, with the compiled
/// scanning expression.
fn find_icao(scanner: &Regex, folder_name: &str) -> (r: Option<String>)
    requires
        pattern_of(*scanner) == icao_pattern(),
    ensures
        text_of(r) == first_group(icao_pattern(), uppercase_of(folder_name@)),
{
    let upper = to_uppercase(folder_name);
    capture_first_group(scanner, upper.as_str())
}

/// Looks at the entries of one folder and adds the airports they show.
fn scan_folder(found: &mut Vec<AirportInfo>, folder: &ScannedFolder, scanner: &Regex)
    requires
        pattern_of(*scanner) == icao_pattern(),
    ensures
        airports_view(final(found)@) == scan_entries(
            airports_view(old(found)@),
            folder.folder_type@,
            folder.entries@,
        ),
        distinct(airports_view(old(found)@)) ==> distinct(airports_view(final(found)@)),
{
    let mut i: usize = 0;
    while i < folder.entries.len()
        invariant
            i <= folder.entries.len(),
            pattern_of(*scanner) == icao_pattern(),
            airports_view(found@) == scan_entries(
                airports_view(old(found)@),
                folder.folder_type@,
                folder.entries@.take(i as int),
            ),
            distinct(airports_view(old(found)@)) ==> distinct(airports_view(found@)),
        decreases folder.entries.len() - i,
    {
        let entry = &folder.entries[i];
        proof {
            assert(folder.entries@.take(i + 1).drop_last() =~= folder.entries@.take(i as int));
            assert(folder.entries@.take(i + 1).last() == *entry);
        }
        if entry.is_dir && entry.depth <= MAX_SCAN_DEPTH {
            match &entry.file_name {
                Some(folder_name) => {
                    match find_icao(scanner, folder_name.as_str()) {
                        Some(icao) => {
                            record_sighting(
                                found,
                                folder_name.as_str(),
                                entry.path.as_str(),
                                folder.folder_type.as_str(),
                                icao.as_str(),
                            );
                        },
                        None => {},
                    }
                },
                None => {},
            }
        }
        i = i + 1;
    }
    assert(folder.entries@.take(folder.entries@.len() as int) =~= folder.entries@);
}

/// Lists the airport scenery packages in the scanned add-on folders: one
/// airport for each ICAO code and folder type, taken from the first package
/// folder that carries the code. Fails where there is no folder to scan.
pub fn scan_for_airport_scenery(folders: &Vec<ScannedFolder>) -> (r: Result<
    Vec<AirportInfo>,
    String,
>)
    ensures
        !pattern_is_valid(icao_pattern()) ==> r is Err,
        pattern_is_valid(icao_pattern()) && folders@.len() == 0 ==> r is Err && r->Err_0@
            == "No MSFS Community folders found"@,
        pattern_is_valid(icao_pattern()) && folders@.len() > 0 ==> r is Ok && airports_view(
            r->Ok_0@,
        ) == scan_folders(Seq::empty(), folders@) && distinct(airports_view(r->Ok_0@)),
{
    let scanner = match compile("(?i)-airport-([A-Z0-9]{4})-") {
        Err(e) => {
            return Err(error_text(&e));
        },
        Ok(scanner) => scanner,
    };
    if folders.len() == 0 {
        return Err(String::from_str("No MSFS Community folders found"));
    }
    let mut found: Vec<AirportInfo> = Vec::new();
    assert(airports_view(found@) =~= Seq::empty());
    let mut i: usize = 0;
    while i < folders.len()
        invariant
            i <= folders.len(),
            pattern_is_valid(icao_pattern()),
            pattern_of(scanner) == icao_pattern(),
            airports_view(found@) == scan_folders(Seq::empty(), folders@.take(i as int)),
            distinct(airports_view(found@)),
        decreases folders.len() - i,
    {
        proof {
            assert(folders@.take(i + 1).drop_last() =~= folders@.take(i as int));
        }
        scan_folder(&mut found, &folders[i], &scanner);
        i = i + 1;
    }
    assert(folders@.take(folders@.len() as int) =~= folders@);
    Ok(found)
}

} // verus!
