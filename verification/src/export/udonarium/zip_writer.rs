//! Packages named text entries into a zip archive, built in memory
//! through the zip crate; writing the archive file is the caller's
//! business.

use vstd::prelude::*;

verus! {

/// An in-memory zip archive being written through the zip crate.
#[verifier::external_body]
pub struct ZipBuilder {
    inner: zip::ZipWriter<std::io::Cursor<Vec<u8>>>,
}

/// The entries a builder holds so far, in order, as (name, content)
/// character pairs.
pub uninterp spec fn zip_entries_of(z: ZipBuilder) -> Seq<(Seq<char>, Seq<char>)>;

/// The archive bytes the zip crate writes for these text entries: with
/// the stored (uncompressed) method and the crate's constant default
/// timestamp, a function of the entries alone.
pub uninterp spec fn zip_bytes_of(entries: Seq<(Seq<char>, Seq<char>)>) -> Seq<u8>;

/// Whether one entry's text is small enough for the zip crate's plain
/// (non-zip64) entries: under a gibicharacter, so its UTF-8 form stays
/// within the four-gibibyte entry threshold.
pub open spec fn entry_content_fits(content: Seq<char>) -> bool {
    content.len() < 0x4000_0000
}

/// Whether every entry's text is small enough for plain zip entries.
pub open spec fn entries_fit(entries: Seq<(Seq<char>, Seq<char>)>) -> bool {
    forall|i: int| 0 <= i < entries.len() ==> entry_content_fits(#[trigger] entries[i].1)
}

impl ZipBuilder {
    /// Relies on `zip::ZipWriter::new` over an empty in-memory buffer: a
    /// builder holding no entries yet.
    #[verifier::external_body]
    pub fn new() -> (r: ZipBuilder)
        ensures
            zip_entries_of(r) == Seq::<(Seq<char>, Seq<char>)>::empty(),
    {
        ZipBuilder { inner: zip::ZipWriter::new(std::io::Cursor::new(Vec::new())) }
    }

    /// Relies on `zip::ZipWriter::start_file` and `Write::write_all`:
    /// appends one named text entry to the archive. Writing stored text
    /// into the in-memory buffer fails only when one entry's bytes pass
    /// the plain-entry size threshold, so an entry that fits always goes
    /// through. A failed add consumes the builder, so a builder in hand
    /// is always still writable.
    #[verifier::external_body]
    pub fn add(self, name: &str, content: &str) -> (r: Result<ZipBuilder, String>)
        ensures
            r matches Ok(b) ==> zip_entries_of(b) == zip_entries_of(self).push(
                (name@, content@),
            ),
            entry_content_fits(content@) ==> r is Ok,
    {
        let mut this = self;
        let options = zip::write::FileOptions::default();
        if let Err(e) = this.inner.start_file(name, options) {
            return Err(e.to_string());
        }
        if let Err(e) = std::io::Write::write_all(&mut this.inner, content.as_bytes()) {
            return Err(e.to_string());
        }
        Ok(this)
    }

    /// Relies on `zip::ZipWriter::finish`: finalizes the archive and
    /// hands out its bytes. Finalizing to the in-memory buffer has no
    /// failure path of its own — oversized entries were already rejected
    /// when they were added — so this always succeeds.
    #[verifier::external_body]
    pub fn finish(self) -> (r: Result<Vec<u8>, String>)
        ensures
            r is Ok,
            r matches Ok(bytes) ==> bytes@ == zip_bytes_of(zip_entries_of(self)),
    {
        let mut this = self;
        match this.inner.finish() {
            Ok(cursor) => Ok(cursor.into_inner()),
            Err(e) => Err(e.to_string()),
        }
    }
}

/// The view of a (name, content) entry.
pub open spec fn entry_view(e: (String, String)) -> (Seq<char>, Seq<char>) {
    (e.0@, e.1@)
}

/// Builds zip archives from named text entries.
pub struct ZipFileWriter;

impl ZipFileWriter {
    /// The bytes of a zip archive holding the given (name, content)
    /// entries, in order. Success is owed whenever every entry fits a
    /// plain zip entry; an oversized entry is reported as the zip
    /// crate's message.
    pub fn create_zip(entries: &Vec<(String, String)>) -> (r: Result<Vec<u8>, String>)
        ensures
            entries_fit(entries@.map_values(|e: (String, String)| entry_view(e))) ==> r is Ok,
            r matches Ok(bytes) ==> bytes@ == zip_bytes_of(
                entries@.map_values(|e: (String, String)| entry_view(e)),
            ),
    {
        let ghost mapped = entries@.map_values(|e: (String, String)| entry_view(e));
        let mut builder = ZipBuilder::new();
        let mut i: usize = 0;
        proof {
            assert(entries@.subrange(0, 0).map_values(|e: (String, String)| entry_view(e))
                =~= Seq::<(Seq<char>, Seq<char>)>::empty());
        }
        while i < entries.len()
            invariant
                i <= entries@.len(),
                mapped == entries@.map_values(|e: (String, String)| entry_view(e)),
                zip_entries_of(builder) == entries@.subrange(0, i as int).map_values(
                    |e: (String, String)| entry_view(e),
                ),
            decreases entries@.len() - i,
        {
            builder = match builder.add(entries[i].0.as_str(), entries[i].1.as_str()) {
                Ok(b) => b,
                Err(e) => {
                    proof {
                        assert(mapped[i as int] == entry_view(entries@[i as int]));
                        assert(!entry_content_fits(mapped[i as int].1));
                    }
                    return Err(e);
                },
            };
            proof {
                assert(entries@.subrange(0, i as int + 1).map_values(
                    |e: (String, String)| entry_view(e),
                ) =~= entries@.subrange(0, i as int).map_values(
                    |e: (String, String)| entry_view(e),
                ).push(entry_view(entries@[i as int])));
            }
            i = i + 1;
        }
        proof {
            assert(entries@.subrange(0, entries@.len() as int) =~= entries@);
        }
        builder.finish()
    }

    /// The bytes of a zip archive holding one named text entry; owed
    /// whenever the entry fits a plain zip entry.
    pub fn create_zip_single(filename: &str, content: &str) -> (r: Result<Vec<u8>, String>)
        ensures
            entry_content_fits(content@) ==> r is Ok,
            r matches Ok(bytes) ==> bytes@ == zip_bytes_of(seq![(filename@, content@)]),
    {
        let mut name = String::new();
        name.append(filename);
        let mut text = String::new();
        text.append(content);
        let mut entries: Vec<(String, String)> = Vec::new();
        entries.push((name, text));
        proof {
            assert(entries@.map_values(|e: (String, String)| entry_view(e)) =~= seq![
                (filename@, content@),
            ]);
        }
        let r = Self::create_zip(&entries);
        r
    }
}

} // verus!
