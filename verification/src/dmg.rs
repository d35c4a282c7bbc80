use vstd::prelude::*;
use vstd::string::*;

use crate::text::opt_text;

verus! {

broadcast use vstd::string::group_string_axioms;

/// What looking a key up in a JSON document gives.
pub enum JsonLookup {
    /// The text is not a JSON document.
    Malformed,
    /// The document is not an object, or the object has no such member.
    Missing,
    /// The member is there but is not a string.
    NotText,
    /// The member is the string given.
    Text(String),
}

/// The mathematical form of a `JsonLookup`.
pub enum JsonLookupView {
    Malformed,
    Missing,
    NotText,
    Text(Seq<char>),
}

impl View for JsonLookup {
    type V = JsonLookupView;

    open spec fn view(&self) -> JsonLookupView {
        match self {
            JsonLookup::Malformed => JsonLookupView::Malformed,
            JsonLookup::Missing => JsonLookupView::Missing,
            JsonLookup::NotText => JsonLookupView::NotText,
            JsonLookup::Text(s) => JsonLookupView::Text(s@),
        }
    }
}

/// What looking up the member `key` of the JSON document `text` gives, as
/// serde_json parses the document.
pub uninterp spec fn json_member(text: Seq<char>, key: Seq<char>) -> JsonLookupView;

/// `serde_json::from_str::<serde_json::Value>`, then `Value::get` with `key`,
/// then `Value::as_str` on the member found. The result is taken as the name
/// `json_member` of the text and the key; what serde_json accepts as a
/// document is not stated.
#[verifier::external_body]
fn lookup_json_member(text: &str, key: &str) -> (r: JsonLookup)
    ensures
        r@ == json_member(text@, key@),
{
    match serde_json::from_str::<serde_json::Value>(text) {
        Err(_) => JsonLookup::Malformed,
        Ok(doc) => match doc.get(key) {
            None => JsonLookup::Missing,
            Some(member) => match member.as_str() {
                None => JsonLookup::NotText,
                Some(url) => JsonLookup::Text(url.to_string()),
            },
        },
    }
}

/// Where the retrieval of a developer disk image stands.
#[derive(Clone, Copy, Debug, PartialEq, Eq, Structural)]
pub enum DmgPhase {
    CheckingCache,
    FetchingIndex,
    ReadingIndex,
    FetchingImage,
    CreatingArchive,
    WritingArchive,
    CreatingExtractDir,
    Extracting,
    RemovingArchive,
    ListingExtractDir,
    MovingImage,
    MovingSignature,
    RemovingExtractDir,
    Done,
}

/// How many steps at most remain from a phase.
pub open spec fn phase_rank(phase: DmgPhase) -> nat {
    match phase {
        DmgPhase::CheckingCache => 13,
        DmgPhase::FetchingIndex => 12,
        DmgPhase::ReadingIndex => 11,
        DmgPhase::FetchingImage => 10,
        DmgPhase::CreatingArchive => 9,
        DmgPhase::WritingArchive => 8,
        DmgPhase::CreatingExtractDir => 7,
        DmgPhase::Extracting => 6,
        DmgPhase::RemovingArchive => 5,
        DmgPhase::ListingExtractDir => 4,
        DmgPhase::MovingImage => 3,
        DmgPhase::MovingSignature => 2,
        DmgPhase::RemovingExtractDir => 1,
        DmgPhase::Done => 0,
    }
}

/// What the caller reports back after carrying out an action.
pub enum DmgEvent {
    /// Whether the image file already lies in the image directory.
    CacheChecked(bool),
    /// Whether the download request got a response.
    Fetched(bool),
    /// The body of the version index, or `None` when it could not be read.
    IndexRead(Option<String>),
    /// Whether the archive file could be created.
    ArchiveCreated(bool),
    /// Whether the download could be written to the archive file.
    ArchiveWritten(bool),
    /// The extraction directory exists.
    ExtractDirCreated,
    /// `None` when the archive was extracted, else a description of the error.
    Extracted(Option<String>),
    /// Whether the archive file could be removed.
    ArchiveRemoved(bool),
    /// The entries of the extraction directory in the order they were read:
    /// each entry's file name and whether it is a directory.
    Listed(Vec<(String, bool)>),
    /// The file was moved.
    Moved,
    /// The extraction directory was removed.
    ExtractDirRemoved,
}

/// What the caller is to do next. File and directory names are relative to
/// the image directory, except where stated.
pub enum DmgAction {
    /// Tell whether the file of this name exists.
    CheckCache(String),
    /// Send a download request to this address.
    Fetch(String),
    /// Read the body of the last response as text.
    ReadIndex,
    /// Create the archive file of this name, relative to the working directory.
    CreateArchive(String),
    /// Copy the body of the last response into the archive file.
    WriteArchive,
    /// Create the directory of this name, with its parents.
    CreateExtractDir(String),
    /// Extract the archive (relative to the working directory) into the
    /// directory.
    Extract { archive: String, dir: String },
    /// Remove the archive file, relative to the working directory.
    RemoveArchive(String),
    /// List the entries of the directory.
    ListExtractDir(String),
    /// Move the file `file` of the directory `from` inside the extraction
    /// directory to the file `to`; with `from` `None` the file is taken from
    /// the working directory instead.
    Move { extract_dir: String, from: Option<String>, file: String, to: String },
    /// Remove the directory and all it holds.
    RemoveExtractDir(String),
    /// Done: the name of the image file, or the error to report.
    Finish(Result<String, String>),
    /// Stop the program with this message.
    Abort(String),
}

/// The retrieval of the developer disk image of an iOS version.
pub struct DmgFetch {
    pub version: String,
    pub phase: DmgPhase,
    /// The directory of the extracted archive that holds the image.
    pub image_dir: Option<String>,
}

/// The name of the image file of an iOS version.
pub open spec fn image_name(version: Seq<char>) -> Seq<char> {
    version + ".dmg"@
}

/// The name of the signature file of an iOS version.
pub open spec fn signature_name(version: Seq<char>) -> Seq<char> {
    version + ".dmg.signature"@
}

/// The name of the last directory among the entries of a listing.
pub open spec fn last_dir(entries: Seq<(String, bool)>) -> Option<Seq<char>>
    decreases entries.len(),
{
    if entries.len() == 0 {
        None
    } else if entries.last().1 {
        Some(entries.last().0@)
    } else {
        last_dir(entries.drop_last())
    }
}

/// The action finishes with the error `e`, and the retrieval is done.
pub open spec fn fails_with(g: DmgFetch, act: DmgAction, e: Seq<char>) -> bool {
    &&& g.phase == DmgPhase::Done
    &&& act matches DmgAction::Finish(Err(m)) && m@ == e
}

/// The retrieval goes on in `phase` with `image_dir` unchanged.
pub open spec fn goes_on(f: DmgFetch, g: DmgFetch, phase: DmgPhase) -> bool {
    &&& g.phase == phase
    &&& opt_text(g.image_dir) == opt_text(f.image_dir)
}

/// What follows the lookup of the iOS version in the version index.
pub open spec fn after_lookup(f: DmgFetch, lookup: JsonLookupView, g: DmgFetch, act: DmgAction) -> bool {
    &&& g.version@ == f.version@
    &&& match lookup {
        JsonLookupView::Text(url) => goes_on(f, g, DmgPhase::FetchingImage) && (act matches DmgAction::Fetch(u) && u@ == url),
        JsonLookupView::Missing => fails_with(g, act, "DMG library does not contain your iOS version"@),
        _ => g.phase == DmgPhase::Done && act is Abort,
    }
}

/// What one step does: from `f`, on the event `ev`, the retrieval becomes `g`
/// and asks for `act`.
pub open spec fn transition(f: DmgFetch, ev: DmgEvent, g: DmgFetch, act: DmgAction) -> bool {
    &&& g.version@ == f.version@
    &&& match (f.phase, ev) {
        (DmgPhase::CheckingCache, DmgEvent::CacheChecked(true)) => g.phase == DmgPhase::Done
            && (act matches DmgAction::Finish(Ok(n)) && n@ == image_name(f.version@)),
        (DmgPhase::CheckingCache, DmgEvent::CacheChecked(false)) => goes_on(f, g, DmgPhase::FetchingIndex)
            && (act matches DmgAction::Fetch(u) && u@ == "https://raw.githubusercontent.com/jkcoxson/jit_shipper/master/versions.json"@),
        (DmgPhase::FetchingIndex, DmgEvent::Fetched(false)) => fails_with(g, act, "Error downloading versions.json"@),
        (DmgPhase::FetchingIndex, DmgEvent::Fetched(true)) => goes_on(f, g, DmgPhase::ReadingIndex) && act is ReadIndex,
        (DmgPhase::ReadingIndex, DmgEvent::IndexRead(None)) => fails_with(g, act, "Error reading versions.json"@),
        (DmgPhase::ReadingIndex, DmgEvent::IndexRead(Some(text))) => after_lookup(f, json_member(text@, f.version@), g, act),
        (DmgPhase::FetchingImage, DmgEvent::Fetched(false)) => fails_with(g, act, "Error downloading DMG"@),
        (DmgPhase::FetchingImage, DmgEvent::Fetched(true)) => goes_on(f, g, DmgPhase::CreatingArchive)
            && (act matches DmgAction::CreateArchive(n) && n@ == "dmg.zip"@),
        (DmgPhase::CreatingArchive, DmgEvent::ArchiveCreated(false)) => fails_with(g, act, "Error creating temp DMG.zip"@),
        (DmgPhase::CreatingArchive, DmgEvent::ArchiveCreated(true)) => goes_on(f, g, DmgPhase::WritingArchive) && act is WriteArchive,
        (DmgPhase::WritingArchive, DmgEvent::ArchiveWritten(false)) => fails_with(g, act, "Error writing temp DMG"@),
        (DmgPhase::WritingArchive, DmgEvent::ArchiveWritten(true)) => goes_on(f, g, DmgPhase::CreatingExtractDir)
            && (act matches DmgAction::CreateExtractDir(d) && d@ == "tmp"@),
        (DmgPhase::CreatingExtractDir, DmgEvent::ExtractDirCreated) => goes_on(f, g, DmgPhase::Extracting)
            && (act matches DmgAction::Extract { archive, dir } && archive@ == "dmg.zip"@ && dir@ == "tmp"@),
        (DmgPhase::Extracting, DmgEvent::Extracted(Some(e))) => fails_with(g, act, "Failed to unzip DMG: "@ + e@),
        (DmgPhase::Extracting, DmgEvent::Extracted(None)) => goes_on(f, g, DmgPhase::RemovingArchive)
            && (act matches DmgAction::RemoveArchive(n) && n@ == "dmg.zip"@),
        (DmgPhase::RemovingArchive, DmgEvent::ArchiveRemoved(false)) => fails_with(g, act, "Failed to remove DMG.zip"@),
        (DmgPhase::RemovingArchive, DmgEvent::ArchiveRemoved(true)) => goes_on(f, g, DmgPhase::ListingExtractDir)
            && (act matches DmgAction::ListExtractDir(d) && d@ == "tmp"@),
        (DmgPhase::ListingExtractDir, DmgEvent::Listed(entries)) => {
            &&& g.phase == DmgPhase::MovingImage
            &&& opt_text(g.image_dir) == last_dir(entries@)
            &&& act matches DmgAction::Move { extract_dir, from, file, to }
            &&& extract_dir@ == "tmp"@
            &&& opt_text(from) == last_dir(entries@)
            &&& file@ == "DeveloperDiskImage.dmg"@
            &&& to@ == image_name(f.version@)
        },
        (DmgPhase::MovingImage, DmgEvent::Moved) => {
            &&& goes_on(f, g, DmgPhase::MovingSignature)
            &&& act matches DmgAction::Move { extract_dir, from, file, to }
            &&& extract_dir@ == "tmp"@
            &&& opt_text(from) == opt_text(f.image_dir)
            &&& file@ == "DeveloperDiskImage.dmg.signature"@
            &&& to@ == signature_name(f.version@)
        },
        (DmgPhase::MovingSignature, DmgEvent::Moved) => goes_on(f, g, DmgPhase::RemovingExtractDir)
            && (act matches DmgAction::RemoveExtractDir(d) && d@ == "tmp"@),
        (DmgPhase::RemovingExtractDir, DmgEvent::ExtractDirRemoved) => g.phase == DmgPhase::Done
            && (act matches DmgAction::Finish(Ok(n)) && n@ == image_name(f.version@)),
        _ => false,
    }
}

/// Whether `ev` is the report that the phase waits for.
pub open spec fn awaits(phase: DmgPhase, ev: DmgEvent) -> bool {
    match (phase, ev) {
        (DmgPhase::CheckingCache, DmgEvent::CacheChecked(_)) => true,
        (DmgPhase::FetchingIndex, DmgEvent::Fetched(_)) => true,
        (DmgPhase::ReadingIndex, DmgEvent::IndexRead(_)) => true,
        (DmgPhase::FetchingImage, DmgEvent::Fetched(_)) => true,
        (DmgPhase::CreatingArchive, DmgEvent::ArchiveCreated(_)) => true,
        (DmgPhase::WritingArchive, DmgEvent::ArchiveWritten(_)) => true,
        (DmgPhase::CreatingExtractDir, DmgEvent::ExtractDirCreated) => true,
        (DmgPhase::Extracting, DmgEvent::Extracted(_)) => true,
        (DmgPhase::RemovingArchive, DmgEvent::ArchiveRemoved(_)) => true,
        (DmgPhase::ListingExtractDir, DmgEvent::Listed(_)) => true,
        (DmgPhase::MovingImage, DmgEvent::Moved) => true,
        (DmgPhase::MovingSignature, DmgEvent::Moved) => true,
        (DmgPhase::RemovingExtractDir, DmgEvent::ExtractDirRemoved) => true,
        _ => false,
    }
}

/// Whether an action ends the retrieval.
pub open spec fn is_final(act: DmgAction) -> bool {
    act is Finish || act is Abort
}

/// `a` followed by `b`.
fn joined(a: &str, b: &str) -> (r: String)
    ensures
        r@ == a@ + b@,
{
    let mut r = String::from_str(a);
    r.append(b);
    r
}

/// The error that ends the retrieval.
fn fail(message: &str) -> (r: DmgAction)
    ensures
        r matches DmgAction::Finish(Err(m)) && m@ == message@,
{
    DmgAction::Finish(Err(String::from_str(message)))
}

impl DmgFetch {
    /// Starts the retrieval of the disk image of `version`: the first action
    /// checks whether its image file is already there.
    pub fn new(version: String) -> (r: (DmgFetch, DmgAction))
        ensures
            r.0.version == version,
            r.0.phase == DmgPhase::CheckingCache,
            r.0.image_dir is None,
            r.1 matches DmgAction::CheckCache(n) && n@ == image_name(version@),
    {
        let name = joined(version.as_str(), ".dmg");
        (DmgFetch { version, phase: DmgPhase::CheckingCache, image_dir: None }, DmgAction::CheckCache(name))
    }

    /// Whether `ev` is the report that the retrieval waits for.
    pub fn awaits(&self, ev: &DmgEvent) -> (r: bool)
        ensures
            r == awaits(self.phase, *ev),
    {
        match (self.phase, ev) {
            (DmgPhase::CheckingCache, DmgEvent::CacheChecked(_)) => true,
            (DmgPhase::FetchingIndex, DmgEvent::Fetched(_)) => true,
            (DmgPhase::ReadingIndex, DmgEvent::IndexRead(_)) => true,
            (DmgPhase::FetchingImage, DmgEvent::Fetched(_)) => true,
            (DmgPhase::CreatingArchive, DmgEvent::ArchiveCreated(_)) => true,
            (DmgPhase::WritingArchive, DmgEvent::ArchiveWritten(_)) => true,
            (DmgPhase::CreatingExtractDir, DmgEvent::ExtractDirCreated) => true,
            (DmgPhase::Extracting, DmgEvent::Extracted(_)) => true,
            (DmgPhase::RemovingArchive, DmgEvent::ArchiveRemoved(_)) => true,
            (DmgPhase::ListingExtractDir, DmgEvent::Listed(_)) => true,
            (DmgPhase::MovingImage, DmgEvent::Moved) => true,
            (DmgPhase::MovingSignature, DmgEvent::Moved) => true,
            (DmgPhase::RemovingExtractDir, DmgEvent::ExtractDirRemoved) => true,
            _ => false,
        }
    }

    /// Goes on from the lookup of the iOS version in the version index: the
    /// image's address leads to its download, a missing version is reported,
    /// and an index that is not JSON or whose entry is not a string stops the
    /// program.
    pub fn apply_lookup(&mut self, lookup: JsonLookup) -> (r: DmgAction)
        requires
            old(self).phase == DmgPhase::ReadingIndex,
        ensures
            after_lookup(*old(self), lookup@, *final(self), r),
    {
        match lookup {
            JsonLookup::Text(url) => {
                self.phase = DmgPhase::FetchingImage;
                DmgAction::Fetch(url)
            },
            JsonLookup::Missing => {
                self.phase = DmgPhase::Done;
                fail("DMG library does not contain your iOS version")
            },
            JsonLookup::Malformed => {
                self.phase = DmgPhase::Done;
                DmgAction::Abort(String::from_str("versions.json is not a JSON document"))
            },
            JsonLookup::NotText => {
                self.phase = DmgPhase::Done;
                DmgAction::Abort(String::from_str("the entry of this iOS version is not a string"))
            },
        }
    }

    /// Takes the report of the last action and tells what to do next.
    pub fn step(&mut self, ev: DmgEvent) -> (r: DmgAction)
        requires
            awaits(old(self).phase, ev),
        ensures
            transition(*old(self), ev, *final(self), r),
            phase_rank(final(self).phase) < phase_rank(old(self).phase),
            (final(self).phase == DmgPhase::Done) == is_final(r),
    {
        match ev {
            DmgEvent::CacheChecked(true) => {
                self.phase = DmgPhase::Done;
                DmgAction::Finish(Ok(joined(self.version.as_str(), ".dmg")))
            },
            DmgEvent::CacheChecked(false) => {
                self.phase = DmgPhase::FetchingIndex;
                DmgAction::Fetch(String::from_str("https://raw.githubusercontent.com/jkcoxson/jit_shipper/master/versions.json"))
            },
            DmgEvent::Fetched(ok) => {
                if self.phase == DmgPhase::FetchingIndex {
                    if ok {
                        self.phase = DmgPhase::ReadingIndex;
                        DmgAction::ReadIndex
                    } else {
                        self.phase = DmgPhase::Done;
                        fail("Error downloading versions.json")
                    }
                } else {
                    if ok {
                        self.phase = DmgPhase::CreatingArchive;
                        DmgAction::CreateArchive(String::from_str("dmg.zip"))
                    } else {
                        self.phase = DmgPhase::Done;
                        fail("Error downloading DMG")
                    }
                }
            },
            DmgEvent::IndexRead(None) => {
                self.phase = DmgPhase::Done;
                fail("Error reading versions.json")
            },
            DmgEvent::IndexRead(Some(text)) => {
                let lookup = lookup_json_member(text.as_str(), self.version.as_str());
                self.apply_lookup(lookup)
            },
            DmgEvent::ArchiveCreated(ok) => {
                if ok {
                    self.phase = DmgPhase::WritingArchive;
                    DmgAction::WriteArchive
                } else {
                    self.phase = DmgPhase::Done;
                    fail("Error creating temp DMG.zip")
                }
            },
            DmgEvent::ArchiveWritten(ok) => {
                if ok {
                    self.phase = DmgPhase::CreatingExtractDir;
                    DmgAction::CreateExtractDir(String::from_str("tmp"))
                } else {
                    self.phase = DmgPhase::Done;
                    fail("Error writing temp DMG")
                }
            },
            DmgEvent::ExtractDirCreated => {
                self.phase = DmgPhase::Extracting;
                DmgAction::Extract { archive: String::from_str("dmg.zip"), dir: String::from_str("tmp") }
            },
            DmgEvent::Extracted(Some(e)) => {
                self.phase = DmgPhase::Done;
                DmgAction::Finish(Err(joined("Failed to unzip DMG: ", e.as_str())))
            },
            DmgEvent::Extracted(None) => {
                self.phase = DmgPhase::RemovingArchive;
                DmgAction::RemoveArchive(String::from_str("dmg.zip"))
            },
            DmgEvent::ArchiveRemoved(ok) => {
                if ok {
                    self.phase = DmgPhase::ListingExtractDir;
                    DmgAction::ListExtractDir(String::from_str("tmp"))
                } else {
                    self.phase = DmgPhase::Done;
                    fail("Failed to remove DMG.zip")
                }
            },
            DmgEvent::Listed(entries) => {
                let dir = last_dir_of(&entries);
                self.phase = DmgPhase::MovingImage;
                self.image_dir = copy_opt(&dir);
                DmgAction::Move {
                    extract_dir: String::from_str("tmp"),
                    from: dir,
                    file: String::from_str("DeveloperDiskImage.dmg"),
                    to: joined(self.version.as_str(), ".dmg"),
                }
            },
            DmgEvent::Moved => {
                if self.phase == DmgPhase::MovingImage {
                    self.phase = DmgPhase::MovingSignature;
                    DmgAction::Move {
                        extract_dir: String::from_str("tmp"),
                        from: copy_opt(&self.image_dir),
                        file: String::from_str("DeveloperDiskImage.dmg.signature"),
                        to: joined(self.version.as_str(), ".dmg.signature"),
                    }
                } else {
                    self.phase = DmgPhase::RemovingExtractDir;
                    DmgAction::RemoveExtractDir(String::from_str("tmp"))
                }
            },
            DmgEvent::ExtractDirRemoved => {
                self.phase = DmgPhase::Done;
                DmgAction::Finish(Ok(joined(self.version.as_str(), ".dmg")))
            },
        }
    }
}

/// A copy of an optional string.
fn copy_opt(o: &Option<String>) -> (r: Option<String>)
    ensures
        opt_text(r) == opt_text(*o),
{
    match o {
        Some(s) => Some(s.clone()),
        None => None,
    }
}

/// The name of the last directory among the entries of a listing.
fn last_dir_of(entries: &Vec<(String, bool)>) -> (r: Option<String>)
    ensures
        opt_text(r) == last_dir(entries@),
{
    let mut k = entries.len();
    proof {
        assert(entries@.take(k as int) =~= entries@);
    }
    while k > 0
        invariant
            k <= entries@.len(),
            last_dir(entries@) == last_dir(entries@.take(k as int)),
        decreases k,
    {
        proof {
            assert(entries@.take(k as int).drop_last() =~= entries@.take(k - 1));
        }
        if entries[k - 1].1 {
            return Some(entries[k - 1].0.clone());
        }
        k = k - 1;
    }
    None
}

/// A retrieval that succeeds always names the image file of its own iOS
/// version.
pub proof fn law_success_names_version_image(f: DmgFetch, ev: DmgEvent, g: DmgFetch, act: DmgAction)
    requires
        transition(f, ev, g, act),
    ensures
        act matches DmgAction::Finish(Ok(n)) ==> n@ == image_name(f.version@),
{
}

/// A step ends the retrieval exactly when it asks to finish or to stop, and
/// every step comes closer to the end, so a retrieval asks for at most as
/// many reports as the rank of its first phase.
pub proof fn law_steps_progress(f: DmgFetch, ev: DmgEvent, g: DmgFetch, act: DmgAction)
    requires
        transition(f, ev, g, act),
    ensures
        phase_rank(g.phase) < phase_rank(f.phase),
        (g.phase == DmgPhase::Done) == is_final(act),
{
    if let DmgEvent::IndexRead(Some(text)) = ev {
        if f.phase == DmgPhase::ReadingIndex {
            assert(after_lookup(f, json_member(text@, f.version@), g, act));
        }
    }
}

/// An image that is already there is used as it is: nothing is downloaded.
pub proof fn law_cached_image_used(f: DmgFetch, g: DmgFetch, act: DmgAction)
    requires
        f.phase == DmgPhase::CheckingCache,
        transition(f, DmgEvent::CacheChecked(true), g, act),
    ensures
        g.phase == DmgPhase::Done,
        act matches DmgAction::Finish(Ok(n)) && n@ == image_name(f.version@),
{
}

/// A listing that ends with a directory has that directory as its last one;
/// a listing that ends with a file has the last directory of what comes
/// before.
pub proof fn law_last_dir_appended(entries: Seq<(String, bool)>, name: String)
    ensures
        last_dir(entries.push((name, true))) == Some(name@),
        last_dir(entries.push((name, false))) == last_dir(entries),
{
    assert(entries.push((name, false)).drop_last() =~= entries);
}

/// The directory the image is taken from is a directory entry of the listing
/// with no directory after it, and there is none exactly when the listing
/// holds no directory.
pub proof fn law_last_dir_is_last_directory(entries: Seq<(String, bool)>)
    ensures
        last_dir(entries) is None <==> (forall|k: int| 0 <= k < entries.len() ==> !(#[trigger] entries[k]).1),
        last_dir(entries) matches Some(n) ==> exists|k: int|
            0 <= k < entries.len() && (#[trigger] entries[k]).1 && entries[k].0@ == n && (forall|j: int|
                k < j < entries.len() ==> !(#[trigger] entries[j]).1),
    decreases entries.len(),
{
    if entries.len() > 0 {
        let rest = entries.drop_last();
        law_last_dir_is_last_directory(rest);
        let last = entries.len() - 1;
        if entries[last].1 {
            assert(entries[last].0@ == entries.last().0@);
        } else {
            assert forall|k: int| 0 <= k < rest.len() implies rest[k] == entries[k] by {}
            if let Some(n) = last_dir(entries) {
                let k = choose|k: int|
                    0 <= k < rest.len() && (#[trigger] rest[k]).1 && rest[k].0@ == n && (forall|j: int|
                        k < j < rest.len() ==> !(#[trigger] rest[j]).1);
                assert(entries[k] == rest[k]);
                assert forall|j: int| k < j < entries.len() implies !(#[trigger] entries[j]).1 by {
                    if j < rest.len() {
                        assert(entries[j] == rest[j]);
                    }
                }
            } else {
                assert forall|k: int| 0 <= k < entries.len() implies !(#[trigger] entries[k]).1 by {
                    if k < rest.len() {
                        assert(entries[k] == rest[k]);
                    }
                }
            }
        }
    }
}

} // verus!
