//! Editing the workspace manifest of the generated crates with `toml_edit`:
//! the configuration crate must be listed in `workspace.members`.

use vstd::prelude::*;

verus! {

/// A parsed TOML document of `toml_edit`, which keeps the formatting of the
/// text it was read from.
#[verifier::external_type_specification]
#[verifier::external_body]
pub struct ExDocument(toml_edit::Document);

/// The error `toml_edit` reports for text that is not a TOML document.
#[verifier::external_type_specification]
#[verifier::external_body]
pub struct ExTomlError(toml_edit::TomlError);

/// What `str::parse::<toml_edit::Document>` makes of `text`: `None` when
/// `toml_edit` does not accept it as a TOML document, else the entries of the
/// parsed document's `workspace.members` (see `document_members`).
pub uninterp spec fn parsed_manifest_members(text: Seq<char>) -> Option<
    Option<Seq<Option<Seq<char>>>>,
>;

/// Whether `toml_edit` accepts `text` as a TOML document.
pub open spec fn toml_document_parses(text: Seq<char>) -> bool {
    parsed_manifest_members(text) is Some
}

/// The `workspace.members` entries of the document parsed from `text`, when
/// it parses.
pub open spec fn manifest_members(text: Seq<char>) -> Option<Seq<Option<Seq<char>>>> {
    parsed_manifest_members(text).unwrap()
}

/// The entries of a document's `workspace.members` array, in order, each as
/// its string value when it is a string: `None` when `workspace` is neither
/// a table nor an inline table, or `members` is not an array in it.
pub uninterp spec fn document_members(doc: toml_edit::Document) -> Option<Seq<Option<Seq<char>>>>;

/// The text that `toml_edit` writes for a document.
pub uninterp spec fn document_text(doc: toml_edit::Document) -> Seq<char>;

/// Whether two documents are the same apart from the entries of the
/// `workspace.members` array: every other table, key, value, comment and bit
/// of formatting is identical.
pub uninterp spec fn same_except_members(a: toml_edit::Document, b: toml_edit::Document) -> bool;

/// `str::parse::<toml_edit::Document>`: succeeds exactly on the texts that
/// `toml_edit` accepts, with a document whose members are the ones named for
/// the text. Which texts those are, and what they list, is not stated in
/// closed form.
#[verifier::external_body]
fn parse_document(text: &str) -> (r: Result<toml_edit::Document, toml_edit::TomlError>)
    ensures
        r is Ok <==> parsed_manifest_members(text@) is Some,
        r matches Ok(doc) ==> parsed_manifest_members(text@) == Some(document_members(doc)),
        r matches Ok(doc) ==> same_except_members(doc, doc),
{
    text.parse::<toml_edit::Document>()
}

/// Reads `doc["workspace"]["members"]` as an array (`Table::get`,
/// `Item::get`, `Item::as_array`) and hands out each value's `as_str`.
#[verifier::external_body]
fn read_members(doc: &toml_edit::Document) -> (r: Option<Vec<Option<String>>>)
    ensures
        r.deep_view() == document_members(*doc),
{
    doc.get("workspace").and_then(|w| w.get("members")).and_then(|m| m.as_array()).map(
        |a| a.iter().map(|v| v.as_str().map(|s| s.to_string())).collect(),
    )
}

/// `Array::push` on `doc["workspace"]["members"]`: the string `name` becomes
/// the last entry and the entries before it stay as they were; nothing else
/// in the document changes (the indexing reaches existing entries, and the
/// push decorates only the new value).
#[verifier::external_body]
fn push_member(doc: &mut toml_edit::Document, name: &str)
    requires
        document_members(*old(doc)) is Some,
    ensures
        document_members(*final(doc)) == Some(
            document_members(*old(doc)).unwrap().push(Some(name@)),
        ),
        forall|d: toml_edit::Document|
            same_except_members(d, *old(doc)) ==> #[trigger] same_except_members(d, *final(doc)),
{
    doc["workspace"]["members"].as_array_mut().unwrap().push(name);
}

/// `Document`'s `to_string`: the document's text, which `toml_edit` reads
/// back as a document with the same `workspace.members` (it writes what it
/// parsed or was given, keeping items, values and their order).
#[verifier::external_body]
fn render_document(doc: &toml_edit::Document) -> (s: String)
    ensures
        s@ == document_text(*doc),
        parsed_manifest_members(s@) == Some(document_members(*doc)),
{
    doc.to_string()
}

/// The message of a `toml_edit` parse error (its `Display`); nothing is
/// stated of its text.
#[verifier::external_body]
fn toml_error_message(e: &toml_edit::TomlError) -> String {
    e.to_string()
}

/// Why the workspace manifest could not be updated.
#[derive(Debug)]
pub enum ManifestError {
    /// The manifest is not a TOML document; the message of the parser.
    Parse(String),
    /// The manifest has no `workspace.members` array.
    MissingMembers,
}

/// The members after `name` has been added to `members`: unchanged when it is
/// listed already, else with `name` appended.
pub open spec fn spec_added_members(
    members: Seq<Option<Seq<char>>>,
    name: Seq<char>,
) -> Seq<Option<Seq<char>>> {
    if members.contains(Some(name)) {
        members
    } else {
        members.push(Some(name))
    }
}

/// A parsed workspace manifest, with the text it was parsed from and the
/// document as parsed.
pub struct WorkspaceManifest {
    doc: toml_edit::Document,
    source: Ghost<Seq<char>>,
    parsed: Ghost<toml_edit::Document>,
}

/// What a workspace manifest holds for this crate: the entries of
/// `workspace.members`, and the text the whole document is written as.
pub struct ManifestView {
    pub members: Option<Seq<Option<Seq<char>>>>,
    pub text: Seq<char>,
}

impl View for WorkspaceManifest {
    type V = ManifestView;

    open spec fn view(&self) -> ManifestView {
        ManifestView { members: self.members(), text: self.text() }
    }
}

impl WorkspaceManifest {
    /// The entries of `workspace.members`, if the manifest has that array.
    pub closed spec fn members(&self) -> Option<Seq<Option<Seq<char>>>> {
        document_members(self.doc)
    }

    /// The text that the manifest is written as.
    pub closed spec fn text(&self) -> Seq<char> {
        document_text(self.doc)
    }

    /// The text the manifest was parsed from.
    pub closed spec fn source(&self) -> Seq<char> {
        self.source@
    }

    /// Whether, since it was parsed, the manifest has changed in its
    /// `workspace.members` entries at most.
    pub closed spec fn only_members_edited(&self) -> bool {
        same_except_members(self.parsed@, self.doc)
    }

    /// Parses a workspace manifest.
    pub fn parse(text: &str) -> (r: Result<Self, ManifestError>)
        ensures
            r is Ok <==> toml_document_parses(text@),
            r matches Ok(m) ==> m.members() == manifest_members(text@),
            r matches Ok(m) ==> m.source() == text@ && m.only_members_edited(),
            r matches Err(e) ==> e is Parse,
    {
        match parse_document(text) {
            Ok(doc) => Ok(WorkspaceManifest { doc, source: Ghost(text@), parsed: Ghost(doc) }),
            Err(e) => Err(ManifestError::Parse(toml_error_message(&e))),
        }
    }

    /// The entries of `workspace.members`, each as its string value when it
    /// is a string.
    pub fn member_names(&self) -> (r: Option<Vec<Option<String>>>)
        ensures
            r.deep_view() == self.members(),
    {
        read_members(&self.doc)
    }

    /// Whether `name` is listed in `workspace.members`; `None` when there is
    /// no such array.
    pub fn has_member(&self, name: &str) -> (r: Option<bool>)
        ensures
            r is Some <==> self.members() is Some,
            r matches Some(b) ==> b == self.members().unwrap().contains(Some(name@)),
    {
        match read_members(&self.doc) {
            Some(names) => Some(list_contains(&names, name)),
            None => None,
        }
    }

    /// Adds `name` to `workspace.members` unless it is listed already, and
    /// says whether it added it. A manifest that lists it stays as it was.
    pub fn add_member(&mut self, name: &str) -> (added: bool)
        requires
            old(self).members() is Some,
        ensures
            added == !old(self).members().unwrap().contains(Some(name@)),
            final(self).members() == Some(
                spec_added_members(old(self).members().unwrap(), name@),
            ),
            !added ==> *final(self) == *old(self),
            final(self).source() == old(self).source(),
            old(self).only_members_edited() ==> final(self).only_members_edited(),
    {
        let present = self.has_member(name);
        match present {
            Some(true) => false,
            _ => {
                push_member(&mut self.doc, name);
                true
            },
        }
    }

    /// The text of the manifest; it parses back to the same members.
    pub fn to_text(&self) -> (s: String)
        ensures
            s@ == self.text(),
            toml_document_parses(s@),
            manifest_members(s@) == self.members(),
    {
        render_document(&self.doc)
    }
}

/// Whether one of `names` is `name`.
fn list_contains(names: &Vec<Option<String>>, name: &str) -> (b: bool)
    ensures
        b == names.deep_view().contains(Some(name@)),
{
    let target = String::from_str(name);
    let mut i: usize = 0;
    while i < names.len()
        invariant
            i <= names.len(),
            target@ == name@,
            forall|j: int| 0 <= j < i ==> names.deep_view()[j] != Some(name@),
        decreases names.len() - i,
    {
        match &names[i] {
            Some(s) => {
                if *s == target {
                    assert(names.deep_view()[i as int] == Some(name@));
                    return true;
                }
            },
            None => {},
        }
        i += 1;
    }
    false
}

/// Lists `config_name` in the workspace manifest `content`. Gives the updated
/// manifest to write back, or `None` when it is listed already and the file
/// stays as it is; fails when `content` is not TOML. A manifest that parses
/// must have a `workspace.members` array.
pub fn add_workspace_member(content: &str, config_name: &str) -> (r: Result<
    Option<WorkspaceManifest>,
    ManifestError,
>)
    requires
        toml_document_parses(content@) ==> manifest_members(content@) is Some,
    ensures
        r matches Err(e) ==> e is Parse,
        r is Err <==> !toml_document_parses(content@),
        r matches Ok(None) <==> toml_document_parses(content@) && manifest_members(
            content@,
        ).unwrap().contains(Some(config_name@)),
        r matches Ok(Some(m)) ==> m.members() == Some(
            manifest_members(content@).unwrap().push(Some(config_name@)),
        ),
        r matches Ok(Some(_)) ==> toml_document_parses(content@) && !manifest_members(
            content@,
        ).unwrap().contains(Some(config_name@)),
        r matches Ok(Some(m)) ==> m.source() == content@ && m.only_members_edited(),
{
    let mut manifest = match WorkspaceManifest::parse(content) {
        Ok(m) => m,
        Err(e) => return Err(e),
    };
    match manifest.has_member(config_name) {
        None => Err(ManifestError::MissingMembers),
        Some(true) => Ok(None),
        Some(false) => {
            manifest.add_member(config_name);
            Ok(Some(manifest))
        },
    }
}

/// As `add_workspace_member`, for any text: a manifest that parses but has
/// no `workspace.members` array is reported as `MissingMembers`.
pub fn checked_add_workspace_member(content: &str, config_name: &str) -> (r: Result<
    Option<WorkspaceManifest>,
    ManifestError,
>)
    ensures
        r matches Err(ManifestError::Parse(_)) <==> !toml_document_parses(content@),
        r matches Err(ManifestError::MissingMembers) <==> toml_document_parses(content@)
            && manifest_members(content@) is None,
        r matches Ok(None) <==> toml_document_parses(content@) && manifest_members(content@) is Some
            && manifest_members(content@).unwrap().contains(Some(config_name@)),
        r matches Ok(Some(m)) ==> m.members() == Some(
            manifest_members(content@).unwrap().push(Some(config_name@)),
        ),
        r matches Ok(Some(_)) ==> toml_document_parses(content@) && manifest_members(content@) is Some
            && !manifest_members(content@).unwrap().contains(Some(config_name@)),
        r matches Ok(Some(m)) ==> m.source() == content@ && m.only_members_edited(),
{
    match WorkspaceManifest::parse(content) {
        Err(e) => Err(e),
        Ok(manifest) => match manifest.has_member(config_name) {
            None => Err(ManifestError::MissingMembers),
            Some(_) => add_workspace_member(content, config_name),
        },
    }
}

/// Adding a name lists it.
pub proof fn lemma_added_member_is_listed(members: Seq<Option<Seq<char>>>, name: Seq<char>)
    ensures
        spec_added_members(members, name).contains(Some(name)),
{
    if !members.contains(Some(name)) {
        let added = members.push(Some(name));
        assert(added[members.len() as int] == Some(name));
    }
}

/// Adding the same name twice is the same as adding it once.
pub proof fn lemma_add_member_idempotent(members: Seq<Option<Seq<char>>>, name: Seq<char>)
    ensures
        spec_added_members(spec_added_members(members, name), name) == spec_added_members(
            members,
            name,
        ),
{
    lemma_added_member_is_listed(members, name);
}

/// Adding a member and writing the manifest back, then adding the same
/// member to what was written, changes nothing the second time: the written
/// text lists the member, exactly once when it was not listed before.
pub proof fn lemma_second_add_changes_nothing(content: Seq<char>, written: Seq<char>, name: Seq<char>)
    requires
        toml_document_parses(content),
        manifest_members(content) is Some,
        toml_document_parses(written),
        manifest_members(written) == Some(
            spec_added_members(manifest_members(content).unwrap(), name),
        ),
    ensures
        manifest_members(written).unwrap().contains(Some(name)),
        !manifest_members(content).unwrap().contains(Some(name)) ==> manifest_members(
            written,
        ).unwrap().to_multiset().count(Some(name)) == 1,
        spec_added_members(manifest_members(written).unwrap(), name) == manifest_members(
            written,
        ).unwrap(),
{
    let ms = manifest_members(content).unwrap();
    lemma_added_member_is_listed(ms, name);
    lemma_add_member_idempotent(ms, name);
    if !ms.contains(Some(name)) {
        ms.to_multiset_ensures();
        assert(ms.to_multiset().count(Some(name)) == 0);
        assert(ms.push(Some(name)).to_multiset() =~= ms.to_multiset().insert(Some(name)));
    }
}

/// Adding a name keeps every entry that was listed before, in its place.
pub proof fn lemma_add_member_keeps_entries(
    members: Seq<Option<Seq<char>>>,
    name: Seq<char>,
    i: int,
)
    requires
        0 <= i < members.len(),
    ensures
        spec_added_members(members, name)[i] == members[i],
{
}

} // verus!
