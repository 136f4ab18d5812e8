//! Resolution of a file name to a content type by an ordered list of rules.

use vstd::prelude::*;
use vstd::string::*;
use crate::text::ends_with;

verus! {

/// Decides whether a file is of the content type it was registered with.
pub trait MimeTypeMatcher {
    /// The files that this matcher accepts.
    spec fn matches(&self, file: Seq<char>) -> bool;

    /// Checks if the given file is of the desired content type.
    fn match_type(&self, file: &String) -> (r: bool)
        ensures
            r == self.matches(file@),
    ;
}

/// Accepts the files whose name ends with a fixed extension.
pub struct ExtensionMatcher(pub String);

impl ExtensionMatcher {
    pub fn new(extension: &str) -> (r: Self)
        ensures
            r.0@ == extension@,
    {
        ExtensionMatcher(String::from_str(extension))
    }
}

impl MimeTypeMatcher for ExtensionMatcher {
    open spec fn matches(&self, file: Seq<char>) -> bool {
        self.0@.is_suffix_of(file)
    }

    fn match_type(&self, file: &String) -> (r: bool) {
        ends_with(file.as_str(), self.0.as_str())
    }
}

/// Holds the registered content types with their matchers, in the order in
/// which they were added.
pub struct MimeTypeMapper<M = ExtensionMatcher> {
    matcher: Vec<(String, M)>,
}

/// The content type of a file that no rule claims.
pub open spec fn fallback_mime_type() -> Seq<char> {
    "application/octet-stream"@
}

/// The extension rules of the default mapper, as pairs of content type and
/// file name suffix, in the order in which they are tried.
pub open spec fn default_rules() -> Seq<(Seq<char>, Seq<char>)> {
    Seq::empty()
        .push(("text/html"@, ".html"@))
        .push(("text/html"@, ".htm"@))
        .push(("audio/aac"@, ".aac"@))
        .push(("application/x-abiword"@, ".abw"@))
        .push(("application/x-freearc"@, ".arc"@))
        .push(("video/x-msvideo"@, ".avi"@))
        .push(("application/vnd.amazon.ebook"@, ".azw"@))
        .push(("application/octet-stream"@, ".bin"@))
        .push(("image/bmp"@, ".bmp"@))
        .push(("application/x-bzip"@, ".bz"@))
        .push(("application/x-bzip2"@, ".bz2"@))
        .push(("application/x-csh"@, ".csh"@))
        .push(("text/css"@, ".css"@))
        .push(("text/csv"@, ".csv"@))
        .push(("application/msword"@, ".doc"@))
        .push(("application/vnd.openxmlformats-officedocument.wordprocessingml.document"@, ".docx"@))
        .push(("application/vnd.ms-fontobject"@, ".eot"@))
        .push(("application/epub+zip"@, ".epub"@))
        .push(("application/gzip"@, ".gz"@))
        .push(("image/gif"@, ".gif"@))
        .push(("image/vnd.microsoft.icon"@, ".ico"@))
        .push(("text/calendar"@, ".ics"@))
        .push(("application/java-archive"@, ".jar"@))
        .push(("image/jpeg"@, ".jpeg"@))
        .push(("image/jpeg"@, ".jpg"@))
        .push(("text/javascript"@, ".js"@))
        .push(("application/json"@, ".json"@))
        .push(("audio/midi audio/x-midi"@, ".mid"@))
        .push(("audio/midi audio/x-midi"@, ".midi"@))
        .push(("text/javascript"@, ".mjs"@))
        .push(("audio/mpeg"@, ".mp3"@))
        .push(("video/mpeg"@, ".mpeg"@))
        .push(("application/vnd.apple.installer+xml"@, ".mpkg"@))
        .push(("application/vnd.oasis.opendocument.presentation"@, ".odp"@))
        .push(("application/vnd.oasis.opendocument.spreadsheet"@, ".ods"@))
        .push(("application/vnd.oasis.opendocument.text"@, ".odt"@))
        .push(("audio/ogg"@, ".oga"@))
        .push(("video/ogg"@, ".ogv"@))
        .push(("application/ogg"@, ".ogx"@))
        .push(("audio/opus"@, ".opus"@))
        .push(("font/otf"@, ".otf"@))
        .push(("image/png"@, ".png"@))
        .push(("application/pdf"@, ".pdf"@))
        .push(("application/x-httpd-php"@, ".php"@))
        .push(("application/vnd.ms-powerpoint"@, ".ppt"@))
        .push(("application/vnd.openxmlformats-officedocument.presentationml.presentation"@, ".pptx"@))
        .push(("application/vnd.rar"@, ".rar"@))
        .push(("application/rtf"@, ".rtf"@))
        .push(("application/x-sh"@, ".sh"@))
        .push(("image/svg+xml"@, ".svg"@))
        .push(("application/x-shockwave-flash"@, ".swf"@))
        .push(("application/x-tar"@, ".tar"@))
        .push(("image/tiff"@, ".tif"@))
        .push(("image/tiff"@, ".tiff"@))
        .push(("video/mp2t"@, ".ts"@))
        .push(("font/ttf"@, ".ttf"@))
        .push(("text/plain"@, ".txt"@))
        .push(("application/vnd.visio"@, ".vsd"@))
        .push(("audio/wav"@, ".wav"@))
        .push(("audio/webm"@, ".weba"@))
        .push(("video/webm"@, ".webm"@))
        .push(("image/webp"@, ".webp"@))
        .push(("font/woff"@, ".woff"@))
        .push(("font/woff2"@, ".woff2"@))
        .push(("application/xhtml+xml"@, ".xhtml"@))
        .push(("application/vnd.ms-excel"@, ".xls"@))
        .push(("application/vnd.openxmlformats-officedocument.spreadsheetml.sheet"@, ".xlsx"@))
        .push(("text/xml"@, ".xml"@))
        .push(("application/vnd.mozilla.xul+xml"@, ".xul"@))
        .push(("application/zip"@, ".zip"@))
        .push(("video/3gpp"@, ".3gp"@))
        .push(("video/3gpp2"@, ".3g2"@))
        .push(("application/x-7z-compressed"@, ".7z"@))
}

impl<M: MimeTypeMatcher> MimeTypeMapper<M> {
    /// The number of rules.
    pub closed spec fn rule_count(&self) -> nat {
        self.matcher@.len()
    }

    /// The content type of rule `i`.
    pub closed spec fn rule_mime(&self, i: int) -> Seq<char> {
        self.matcher@[i].0@
    }

    /// Whether rule `i` claims `file`.
    pub closed spec fn rule_matches(&self, i: int, file: Seq<char>) -> bool {
        self.matcher@[i].1.matches(file)
    }

    /// Rule `i` claims `file` and no earlier rule does.
    pub open spec fn is_first_match(&self, file: Seq<char>, i: int) -> bool {
        &&& 0 <= i < self.rule_count()
        &&& self.rule_matches(i, file)
        &&& forall|j: int| 0 <= j < i ==> !self.rule_matches(j, file)
    }

    /// No rule claims `file`.
    pub open spec fn no_match(&self, file: Seq<char>) -> bool {
        forall|j: int| 0 <= j < self.rule_count() ==> !self.rule_matches(j, file)
    }

    /// The file resolves to the content type: to that of the first rule
    /// that claims the file, or to the fallback type where no rule does.
    pub open spec fn resolves_to(&self, file: Seq<char>, mime_type: Seq<char>) -> bool {
        &&& forall|i: int| self.is_first_match(file, i) ==> mime_type == self.rule_mime(i)
        &&& self.no_match(file) ==> mime_type == fallback_mime_type()
    }

    /// Among the first `n` rules either none claims the file or one is the
    /// first to claim it.
    proof fn lemma_first_match_or_none(&self, file: Seq<char>, n: int)
        requires
            0 <= n <= self.rule_count(),
        ensures
            (forall|j: int| 0 <= j < n ==> !self.rule_matches(j, file)) || (exists|i: int|
                0 <= i < n && self.is_first_match(file, i)),
        decreases n,
    {
        if n > 0 {
            self.lemma_first_match_or_none(file, n - 1);
            if forall|j: int| 0 <= j < n - 1 ==> !self.rule_matches(j, file) {
                if self.rule_matches(n - 1, file) {
                    assert(self.is_first_match(file, n - 1));
                }
            }
        }
    }

    /// A file resolves to one content type only: the first rule that claims
    /// it decides, whatever rules follow.
    pub proof fn law_resolution_is_unique(&self, file: Seq<char>, a: Seq<char>, b: Seq<char>)
        requires
            self.resolves_to(file, a),
            self.resolves_to(file, b),
        ensures
            a == b,
    {
        self.lemma_first_match_or_none(file, self.rule_count() as int);
        if self.no_match(file) {
        } else {
            let i = choose|i: int| 0 <= i < self.rule_count() && self.is_first_match(file, i);
            assert(a == self.rule_mime(i));
            assert(b == self.rule_mime(i));
        }
    }

    /// The rules are exactly the extension rules of `table`, in its order.
    pub open spec fn is_extension_table(&self, table: Seq<(Seq<char>, Seq<char>)>) -> bool {
        &&& self.rule_count() == table.len()
        &&& forall|i: int| 0 <= i < table.len() ==> self.rule_mime(i) == table[i].0
        &&& forall|i: int, file: Seq<char>|
            0 <= i < table.len() ==> (#[trigger] self.rule_matches(i, file)
                <==> table[i].1.is_suffix_of(file))
    }

    /// A mapper without rules: every file resolves to the fallback type.
    pub fn new() -> (r: Self)
        ensures
            r.rule_count() == 0,
            r.is_extension_table(Seq::empty()),
    {
        MimeTypeMapper { matcher: Vec::new() }
    }

    /// Adds a matcher with a given content type, behind the rules already there.
    pub fn add_matcher(&mut self, mime_type: &str, matcher: M)
        ensures
            final(self).rule_count() == old(self).rule_count() + 1,
            final(self).rule_mime(old(self).rule_count() as int) == mime_type@,
            forall|file: Seq<char>| #[trigger]
                final(self).rule_matches(old(self).rule_count() as int, file) == matcher.matches(
                    file,
                ),
            forall|i: int|
                0 <= i < old(self).rule_count() ==> #[trigger] final(self).rule_mime(i) == old(
                    self,
                ).rule_mime(i),
            forall|i: int, file: Seq<char>|
                0 <= i < old(self).rule_count() ==> #[trigger] final(self).rule_matches(i, file)
                    == old(self).rule_matches(i, file),
    {
        self.matcher.push((String::from_str(mime_type), matcher));
    }

    /// Resolves a file name to the content type of the first rule that claims
    /// it, or to the fallback type where none does.
    pub fn match_file(&self, file: &str) -> (r: String)
        ensures
            self.resolves_to(file@, r@),
    {
        let name = String::from_str(file);
        let mut i: usize = 0;
        while i < self.matcher.len()
            invariant
                i <= self.matcher@.len(),
                name@ == file@,
                forall|j: int| 0 <= j < i ==> !self.rule_matches(j, file@),
            decreases self.matcher@.len() - i,
        {
            if self.matcher[i].1.match_type(&name) {
                assert(self.rule_matches(i as int, file@));
                return self.matcher[i].0.clone();
            }
            i = i + 1;
        }
        String::from_str("application/octet-stream")
    }
}

impl MimeTypeMapper<ExtensionMatcher> {
    /// Adds the rule that gives `mime_type` to the files ending in `extension`.
    fn add_extension(&mut self, mime_type: &str, extension: &str)
        ensures
            forall|table: Seq<(Seq<char>, Seq<char>)>| #[trigger]
                old(self).is_extension_table(table) ==> final(self).is_extension_table(
                    table.push((mime_type@, extension@)),
                ),
    {
        self.add_matcher(mime_type, ExtensionMatcher::new(extension));
    }
}

impl Default for MimeTypeMapper<ExtensionMatcher> {
    /// The mapper with the common extension rules.
    fn default() -> (r: Self)
        ensures
            r.is_extension_table(default_rules()),
    {
        let mut mapper = MimeTypeMapper::new();
        mapper.add_extension("text/html", ".html");
        mapper.add_extension("text/html", ".htm");
        mapper.add_extension("audio/aac", ".aac");
        mapper.add_extension("application/x-abiword", ".abw");
        mapper.add_extension("application/x-freearc", ".arc");
        mapper.add_extension("video/x-msvideo", ".avi");
        mapper.add_extension("application/vnd.amazon.ebook", ".azw");
        mapper.add_extension("application/octet-stream", ".bin");
        mapper.add_extension("image/bmp", ".bmp");
        mapper.add_extension("application/x-bzip", ".bz");
        mapper.add_extension("application/x-bzip2", ".bz2");
        mapper.add_extension("application/x-csh", ".csh");
        mapper.add_extension("text/css", ".css");
        mapper.add_extension("text/csv", ".csv");
        mapper.add_extension("application/msword", ".doc");
        mapper.add_extension("application/vnd.openxmlformats-officedocument.wordprocessingml.document", ".docx");
        mapper.add_extension("application/vnd.ms-fontobject", ".eot");
        mapper.add_extension("application/epub+zip", ".epub");
        mapper.add_extension("application/gzip", ".gz");
        mapper.add_extension("image/gif", ".gif");
        mapper.add_extension("image/vnd.microsoft.icon", ".ico");
        mapper.add_extension("text/calendar", ".ics");
        mapper.add_extension("application/java-archive", ".jar");
        mapper.add_extension("image/jpeg", ".jpeg");
        mapper.add_extension("image/jpeg", ".jpg");
        mapper.add_extension("text/javascript", ".js");
        mapper.add_extension("application/json", ".json");
        mapper.add_extension("audio/midi audio/x-midi", ".mid");
        mapper.add_extension("audio/midi audio/x-midi", ".midi");
        mapper.add_extension("text/javascript", ".mjs");
        mapper.add_extension("audio/mpeg", ".mp3");
        mapper.add_extension("video/mpeg", ".mpeg");
        mapper.add_extension("application/vnd.apple.installer+xml", ".mpkg");
        mapper.add_extension("application/vnd.oasis.opendocument.presentation", ".odp");
        mapper.add_extension("application/vnd.oasis.opendocument.spreadsheet", ".ods");
        mapper.add_extension("application/vnd.oasis.opendocument.text", ".odt");
        mapper.add_extension("audio/ogg", ".oga");
        mapper.add_extension("video/ogg", ".ogv");
        mapper.add_extension("application/ogg", ".ogx");
        mapper.add_extension("audio/opus", ".opus");
        mapper.add_extension("font/otf", ".otf");
        mapper.add_extension("image/png", ".png");
        mapper.add_extension("application/pdf", ".pdf");
        mapper.add_extension("application/x-httpd-php", ".php");
        mapper.add_extension("application/vnd.ms-powerpoint", ".ppt");
        mapper.add_extension("application/vnd.openxmlformats-officedocument.presentationml.presentation", ".pptx");
        mapper.add_extension("application/vnd.rar", ".rar");
        mapper.add_extension("application/rtf", ".rtf");
        mapper.add_extension("application/x-sh", ".sh");
        mapper.add_extension("image/svg+xml", ".svg");
        mapper.add_extension("application/x-shockwave-flash", ".swf");
        mapper.add_extension("application/x-tar", ".tar");
        mapper.add_extension("image/tiff", ".tif");
        mapper.add_extension("image/tiff", ".tiff");
        mapper.add_extension("video/mp2t", ".ts");
        mapper.add_extension("font/ttf", ".ttf");
        mapper.add_extension("text/plain", ".txt");
        mapper.add_extension("application/vnd.visio", ".vsd");
        mapper.add_extension("audio/wav", ".wav");
        mapper.add_extension("audio/webm", ".weba");
        mapper.add_extension("video/webm", ".webm");
        mapper.add_extension("image/webp", ".webp");
        mapper.add_extension("font/woff", ".woff");
        mapper.add_extension("font/woff2", ".woff2");
        mapper.add_extension("application/xhtml+xml", ".xhtml");
        mapper.add_extension("application/vnd.ms-excel", ".xls");
        mapper.add_extension("application/vnd.openxmlformats-officedocument.spreadsheetml.sheet", ".xlsx");
        mapper.add_extension("text/xml", ".xml");
        mapper.add_extension("application/vnd.mozilla.xul+xml", ".xul");
        mapper.add_extension("application/zip", ".zip");
        mapper.add_extension("video/3gpp", ".3gp");
        mapper.add_extension("video/3gpp2", ".3g2");
        mapper.add_extension("application/x-7z-compressed", ".7z");
        mapper
    }
}

} // verus!
