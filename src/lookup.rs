use vstd::prelude::*;

verus! {

/// The views of a sequence of strings.
pub open spec fn views(v: Seq<String>) -> Seq<Seq<char>> {
    v.map_values(|s: String| s@)
}

/// One package as the workspace metadata describes it.
pub struct PackageRecord {
    pub id: String,
    pub name: String,
    pub version: String,
}

pub struct RecordView {
    pub id: Seq<char>,
    pub name: Seq<char>,
    pub version: Seq<char>,
}

impl View for PackageRecord {
    type V = RecordView;

    open spec fn view(&self) -> RecordView {
        RecordView { id: self.id@, name: self.name@, version: self.version@ }
    }
}

/// What the release run reads of the workspace metadata: the ids of the
/// workspace members, and a record for each package known to the metadata.
pub struct WorkspaceMetadata {
    pub members: Vec<String>,
    pub packages: Vec<PackageRecord>,
}

pub struct MetadataView {
    pub members: Seq<Seq<char>>,
    pub packages: Seq<RecordView>,
}

impl View for WorkspaceMetadata {
    type V = MetadataView;

    open spec fn view(&self) -> MetadataView {
        MetadataView {
            members: views(self.members@),
            packages: self.packages@.map_values(|p: PackageRecord| p@),
        }
    }
}

/// `j` is the first position of a record with this id.
pub open spec fn is_first_with(records: Seq<RecordView>, id: Seq<char>, j: int) -> bool {
    &&& 0 <= j < records.len()
    &&& records[j].id == id
    &&& forall|k: int| 0 <= k < j ==> records[k].id != id
}

/// The first record with this id, if there is one.
pub open spec fn first_record(records: Seq<RecordView>, id: Seq<char>) -> Option<RecordView> {
    if exists|j: int| is_first_with(records, id, j) {
        Some(records[choose|j: int| is_first_with(records, id, j)])
    } else {
        None
    }
}

/// The lookup from package name to version built from the first `n` members:
/// each member adds the name and version of its record, a later member
/// overriding an earlier one of the same name. It fails with the id of the
/// first member that has no record.
pub open spec fn scan(meta: MetadataView, n: nat) -> Result<Map<Seq<char>, Seq<char>>, Seq<char>>
    decreases n,
{
    if n == 0 {
        Ok(Map::empty())
    } else {
        match scan(meta, (n - 1) as nat) {
            Err(id) => Err(id),
            Ok(m) => match first_record(meta.packages, meta.members[n - 1]) {
                None => Err(meta.members[n - 1]),
                Some(r) => Ok(m.insert(r.name, r.version)),
            },
        }
    }
}

proof fn lemma_scan_err(meta: MetadataView, n: nat, m: nat)
    requires
        n <= m,
        scan(meta, n) is Err,
    ensures
        scan(meta, m) == scan(meta, n),
    decreases m,
{
    if n < m {
        lemma_scan_err(meta, n, (m - 1) as nat);
    }
}

/// The lookup built from all the members.
pub open spec fn versions_of(meta: MetadataView) -> Result<Map<Seq<char>, Seq<char>>, Seq<char>> {
    scan(meta, meta.members.len())
}

/// The map that a list of entries gives, a later entry overriding an earlier
/// one of the same name.
pub open spec fn entries_map(names: Seq<Seq<char>>, versions: Seq<Seq<char>>) -> Map<
    Seq<char>,
    Seq<char>,
>
    decreases names.len(),
{
    if names.len() == 0 || versions.len() == 0 {
        Map::empty()
    } else {
        entries_map(names.drop_last(), versions.drop_last()).insert(
            names.last(),
            versions.last(),
        )
    }
}

proof fn lemma_entries_map_last(names: Seq<Seq<char>>, versions: Seq<Seq<char>>, j: int)
    requires
        names.len() == versions.len(),
        0 <= j < names.len(),
        forall|l: int| j < l < names.len() ==> names[l] != names[j],
    ensures
        entries_map(names, versions).contains_key(names[j]),
        entries_map(names, versions)[names[j]] == versions[j],
    decreases names.len(),
{
    let n = names.len() - 1;
    if j < n {
        assert(names[n] != names[j]);
        lemma_entries_map_last(names.drop_last(), versions.drop_last(), j);
    }
}

proof fn lemma_entries_map_absent(names: Seq<Seq<char>>, versions: Seq<Seq<char>>, k: Seq<char>)
    requires
        names.len() == versions.len(),
        forall|i: int| 0 <= i < names.len() ==> names[i] != k,
    ensures
        !entries_map(names, versions).contains_key(k),
    decreases names.len(),
{
    if names.len() > 0 {
        assert(names[names.len() - 1] != k);
        lemma_entries_map_absent(names.drop_last(), versions.drop_last(), k);
    }
}

/// Package name to version, as entries in the order they were added.
pub struct VersionLookup {
    names: Vec<String>,
    versions: Vec<String>,
}

impl View for VersionLookup {
    type V = Map<Seq<char>, Seq<char>>;

    closed spec fn view(&self) -> Map<Seq<char>, Seq<char>> {
        entries_map(views(self.names@), views(self.versions@))
    }
}

impl VersionLookup {
    pub closed spec fn wf(&self) -> bool {
        self.names@.len() == self.versions@.len()
    }

    pub fn new() -> (r: VersionLookup)
        ensures
            r.wf(),
            r@ == Map::<Seq<char>, Seq<char>>::empty(),
    {
        let r = VersionLookup { names: Vec::new(), versions: Vec::new() };
        assert(views(r.names@).len() == 0);
        r
    }

    /// Records `version` for `name`, replacing what was there.
    pub fn insert(&mut self, name: String, version: String)
        requires
            old(self).wf(),
        ensures
            final(self).wf(),
            final(self)@ == old(self)@.insert(name@, version@),
    {
        let ghost ns = views(self.names@);
        let ghost vs = views(self.versions@);
        self.names.push(name);
        self.versions.push(version);
        assert(views(self.names@).drop_last() =~= ns);
        assert(views(self.versions@).drop_last() =~= vs);
    }

    /// The version recorded for `name`.
    pub fn get(&self, name: &String) -> (r: Option<String>)
        requires
            self.wf(),
        ensures
            r is Some <==> self@.contains_key(name@),
            r matches Some(v) ==> v@ == self@[name@],
    {
        let ghost ns = views(self.names@);
        let ghost vs = views(self.versions@);
        let mut i: usize = self.names.len();
        while i > 0
            invariant
                self.wf(),
                ns == views(self.names@),
                vs == views(self.versions@),
                i <= self.names@.len(),
                forall|l: int| i <= l < ns.len() ==> ns[l] != name@,
            decreases i,
        {
            i = i - 1;
            if self.names[i] == *name {
                proof {
                    lemma_entries_map_last(ns, vs, i as int);
                }
                return Some(self.versions[i].clone());
            }
        }
        proof {
            lemma_entries_map_absent(ns, vs, name@);
        }
        None
    }
}

/// Builds the lookup from package name to version over all the workspace
/// members. Fails with the id of the first member that has no record.
pub fn versions(meta: &WorkspaceMetadata) -> (r: Result<VersionLookup, String>)
    ensures
        match versions_of(meta@) {
            Ok(m) => r matches Ok(l) && l.wf() && l@ == m,
            Err(id) => r matches Err(e) && e@ == id,
        },
{
    let mut lookup = VersionLookup::new();
    let mut i: usize = 0;
    while i < meta.members.len()
        invariant
            i <= meta.members@.len(),
            lookup.wf(),
            scan(meta@, i as nat) == Ok::<Map<Seq<char>, Seq<char>>, Seq<char>>(lookup@),
        decreases meta.members@.len() - i,
    {
        let id = &meta.members[i];
        let ghost records = meta@.packages;
        let mut j: usize = 0;
        while j < meta.packages.len() && meta.packages[j].id != *id
            invariant
                j <= meta.packages@.len(),
                records == meta@.packages,
                forall|k: int| 0 <= k < j ==> records[k].id != id@,
            decreases meta.packages@.len() - j,
        {
            j = j + 1;
        }
        if j == meta.packages.len() {
            proof {
                assert(!exists|k: int| is_first_with(records, id@, k));
                assert(scan(meta@, (i + 1) as nat) == Err::<Map<Seq<char>, Seq<char>>, Seq<char>>(
                    id@,
                ));
                lemma_scan_err(meta@, (i + 1) as nat, meta@.members.len());
            }
            return Err(id.clone());
        }
        proof {
            assert(is_first_with(records, id@, j as int));
            let c = choose|k: int| is_first_with(records, id@, k);
            assert(c == j as int) by {
                if c < j as int {
                    assert(records[c].id != id@);
                } else if c > j as int {
                    assert(records[j as int].id != id@);
                }
            }
        }
        let record = &meta.packages[j];
        lookup.insert(record.name.clone(), record.version.clone());
        i = i + 1;
    }
    Ok(lookup)
}

/// The tag of a package release: `{package}-v{version}`.
pub open spec fn tag_of(package: Seq<char>, version: Seq<char>) -> Seq<char> {
    package + "-v"@ + version
}

pub fn tag_name(package: &str, version: &str) -> (r: String)
    ensures
        r@ == tag_of(package@, version@),
{
    let mut t = String::from_str(package);
    t.append("-v");
    t.append(version);
    t
}

} // verus!
