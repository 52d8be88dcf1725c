//! System configuration: the settings with their defaults, the layered
//! configuration files and how they are merged, and the runtime directories.
use vstd::prelude::*;
use vstd::string::*;
use crate::paths::{join_path, joined_path};
use crate::text::{owned, str_eq};

verus! {

/// Where SpecterOS keeps its data.
#[derive(Debug, Clone)]
pub struct CoreConfig {
    pub data_dir: String,
}

impl Default for CoreConfig {
    fn default() -> (r: Self)
        ensures
            r.data_dir@ == "/var/lib/specteros"@,
    {
        CoreConfig { data_dir: owned("/var/lib/specteros") }
    }
}

/// Whether requests are denied unless a rule allows them.
#[derive(Debug, Clone)]
pub struct SecurityConfig {
    pub deny_by_default: bool,
}

impl Default for SecurityConfig {
    fn default() -> (r: Self)
        ensures
            r.deny_by_default,
    {
        SecurityConfig { deny_by_default: true }
    }
}

/// How long capability tokens live.
#[derive(Debug, Clone)]
pub struct PolicyConfig {
    pub token_ttl_seconds: u64,
}

impl Default for PolicyConfig {
    fn default() -> (r: Self)
        ensures
            r.token_ttl_seconds == 900,
    {
        PolicyConfig { token_ttl_seconds: 900 }
    }
}

/// Whether persona shards are enabled.
#[derive(Debug, Clone)]
pub struct ShardConfig {
    pub enabled: bool,
}

impl Default for ShardConfig {
    fn default() -> (r: Self)
        ensures
            r.enabled,
    {
        ShardConfig { enabled: true }
    }
}

/// Whether the network kill switch is on at start.
#[derive(Debug, Clone)]
pub struct NetworkConfig {
    pub kill_switch_default: bool,
}

impl Default for NetworkConfig {
    fn default() -> (r: Self)
        ensures
            r.kill_switch_default,
    {
        NetworkConfig { kill_switch_default: true }
    }
}

/// Whether the airlock scans every transfer.
#[derive(Debug, Clone)]
pub struct AirlockConfig {
    pub require_scan: bool,
}

impl Default for AirlockConfig {
    fn default() -> (r: Self)
        ensures
            r.require_scan,
    {
        AirlockConfig { require_scan: true }
    }
}

/// Whether auditing is on.
#[derive(Debug, Clone)]
pub struct AuditConfig {
    pub enabled: bool,
}

impl Default for AuditConfig {
    fn default() -> (r: Self)
        ensures
            r.enabled,
    {
        AuditConfig { enabled: true }
    }
}

/// The update channel.
#[derive(Debug, Clone)]
pub struct UpdateConfig {
    pub channel: String,
}

impl Default for UpdateConfig {
    fn default() -> (r: Self)
        ensures
            r.channel@ == "stable"@,
    {
        UpdateConfig { channel: owned("stable") }
    }
}

/// Settings of the Debian edition.
#[derive(Debug, Clone)]
pub struct DebianEditionConfig {
    pub apt_channel: String,
}

impl Default for DebianEditionConfig {
    fn default() -> (r: Self)
        ensures
            r.apt_channel@ == "stable"@,
    {
        DebianEditionConfig { apt_channel: owned("stable") }
    }
}

/// Settings of the Fedora edition.
#[derive(Debug, Clone)]
pub struct FedoraEditionConfig {
    pub dnf_channel: String,
}

impl Default for FedoraEditionConfig {
    fn default() -> (r: Self)
        ensures
            r.dnf_channel@ == "stable"@,
    {
        FedoraEditionConfig { dnf_channel: owned("stable") }
    }
}

/// Which edition this is, with its edition-specific settings.
#[derive(Debug, Clone)]
pub struct EditionConfig {
    pub name: String,
    pub debian: Option<DebianEditionConfig>,
    pub fedora: Option<FedoraEditionConfig>,
}

impl Default for EditionConfig {
    fn default() -> (r: Self)
        ensures
            r.name@ == "shared"@,
            r.debian is None,
            r.fedora is None,
    {
        EditionConfig { name: owned("shared"), debian: None, fedora: None }
    }
}

/// The whole configuration.
#[derive(Debug, Clone)]
pub struct SpecterosConfig {
    pub schema_version: u32,
    pub core: CoreConfig,
    pub security: SecurityConfig,
    pub policy: PolicyConfig,
    pub shards: ShardConfig,
    pub network: NetworkConfig,
    pub airlock: AirlockConfig,
    pub audit: AuditConfig,
    pub update: UpdateConfig,
    pub edition: EditionConfig,
}

/// Whether `c` holds every default setting.
pub open spec fn is_default_config(c: SpecterosConfig) -> bool {
    &&& c.schema_version == 1
    &&& c.core.data_dir@ == "/var/lib/specteros"@
    &&& c.security.deny_by_default
    &&& c.policy.token_ttl_seconds == 900
    &&& c.shards.enabled
    &&& c.network.kill_switch_default
    &&& c.airlock.require_scan
    &&& c.audit.enabled
    &&& c.update.channel@ == "stable"@
    &&& c.edition.name@ == "shared"@
    &&& c.edition.debian is None
    &&& c.edition.fedora is None
}

impl Default for SpecterosConfig {
    fn default() -> (r: Self)
        ensures
            is_default_config(r),
    {
        SpecterosConfig {
            schema_version: 1,
            core: CoreConfig::default(),
            security: SecurityConfig::default(),
            policy: PolicyConfig::default(),
            shards: ShardConfig::default(),
            network: NetworkConfig::default(),
            airlock: AirlockConfig::default(),
            audit: AuditConfig::default(),
            update: UpdateConfig::default(),
            edition: EditionConfig::default(),
        }
    }
}

/// The directories SpecterOS runs with.
#[derive(Debug, Clone, PartialEq, Eq)]
pub struct RuntimePaths {
    pub config_dir: String,
    pub data_dir: String,
    pub log_dir: String,
}

impl RuntimePaths {
    /// The system's directories under `/`.
    pub fn system_defaults() -> (r: Self)
        ensures
            r.config_dir@ == "/etc/specteros"@,
            r.data_dir@ == "/var/lib/specteros"@,
            r.log_dir@ == "/var/log/specteros"@,
    {
        RuntimePaths {
            config_dir: owned("/etc/specteros"),
            data_dir: owned("/var/lib/specteros"),
            log_dir: owned("/var/log/specteros"),
        }
    }

    /// The same directories below `root`.
    pub fn from_root(root: &str) -> (r: Self)
        ensures
            r.config_dir@ == joined_path(root@, "etc/specteros"@),
            r.data_dir@ == joined_path(root@, "var/lib/specteros"@),
            r.log_dir@ == joined_path(root@, "var/log/specteros"@),
    {
        RuntimePaths {
            config_dir: join_path(root, "etc/specteros"),
            data_dir: join_path(root, "var/lib/specteros"),
            log_dir: join_path(root, "var/log/specteros"),
        }
    }

    /// The three directories, in the order they are set up and checked.
    pub fn all(&self) -> (r: Vec<String>)
        ensures
            r@.map_values(|s: String| s@) == seq![self.config_dir@, self.data_dir@, self.log_dir@],
    {
        let mut r: Vec<String> = Vec::new();
        r.push(self.config_dir.clone());
        r.push(self.data_dir.clone());
        r.push(self.log_dir.clone());
        proof {
            assert(r@.map_values(|s: String| s@) =~= seq![self.config_dir@, self.data_dir@, self.log_dir@]);
        }
        r
    }
}

/// The directories that setting up the runtime layout created, and those it
/// checked to be writable.
#[derive(Debug, Clone, PartialEq, Eq)]
pub struct RuntimeBootstrapReport {
    pub created_paths: Vec<String>,
    pub validated_paths: Vec<String>,
}

/// The last component of a path: what follows its last `/`.
pub open spec fn file_name(p: Seq<char>) -> Seq<char>
    decreases p.len(),
{
    if p.len() == 0 || p.last() == '/' {
        Seq::empty()
    } else {
        file_name(p.drop_last()).push(p.last())
    }
}

/// Whether a path names a `.toml` file: its file name has the extension
/// `toml` after a non-empty stem.
pub open spec fn is_toml_layer(p: Seq<char>) -> bool {
    let n = file_name(p);
    n.len() > 5 && n.subrange(n.len() - 5, n.len() as int) == ".toml"@
}

/// Whether `a` comes before `b` or equals it, comparing character by
/// character and a prefix first.
pub open spec fn lex_le(a: Seq<char>, b: Seq<char>) -> bool
    decreases a.len(),
{
    if a.len() == 0 {
        true
    } else if b.len() == 0 {
        false
    } else if a[0] != b[0] {
        a[0] < b[0]
    } else {
        lex_le(a.drop_first(), b.drop_first())
    }
}

proof fn lemma_lex_total(a: Seq<char>, b: Seq<char>)
    ensures
        lex_le(a, b) || lex_le(b, a),
    decreases a.len(),
{
    if a.len() > 0 && b.len() > 0 {
        if a[0] == b[0] {
            lemma_lex_total(a.drop_first(), b.drop_first());
        }
    }
}

proof fn lemma_lex_transitive(a: Seq<char>, b: Seq<char>, c: Seq<char>)
    requires
        lex_le(a, b),
        lex_le(b, c),
    ensures
        lex_le(a, c),
    decreases a.len(),
{
    if a.len() > 0 && b.len() > 0 && c.len() > 0 && a[0] == b[0] && b[0] == c[0] {
        lemma_lex_transitive(a.drop_first(), b.drop_first(), c.drop_first());
    }
}

/// Whether the paths are in order.
pub open spec fn sorted_paths(s: Seq<Seq<char>>) -> bool {
    forall|i: int, j: int| 0 <= i < j < s.len() ==> lex_le(#[trigger] s[i], #[trigger] s[j])
}

/// The characters of each string.
pub open spec fn texts(s: Seq<String>) -> Seq<Seq<char>> {
    s.map_values(|x: String| x@)
}

/// Whether `a` comes before `b` or equals it.
fn path_le(a: &str, b: &str) -> (r: bool)
    ensures
        r == lex_le(a@, b@),
{
    let n: usize = a.unicode_len();
    let m: usize = b.unicode_len();
    let mut i: usize = 0;
    proof {
        assert(a@.skip(0) =~= a@);
        assert(b@.skip(0) =~= b@);
    }
    while i < n && i < m
        invariant
            n == a@.len(),
            m == b@.len(),
            i <= n,
            i <= m,
            lex_le(a@, b@) == lex_le(a@.skip(i as int), b@.skip(i as int)),
        decreases n - i,
    {
        let x = a.get_char(i);
        let y = b.get_char(i);
        proof {
            assert(a@.skip(i as int)[0] == x);
            assert(b@.skip(i as int)[0] == y);
            assert(a@.skip(i as int).drop_first() =~= a@.skip(i + 1));
            assert(b@.skip(i as int).drop_first() =~= b@.skip(i + 1));
        }
        if x != y {
            return x < y;
        }
        i = i + 1;
    }
    i == n
}

/// The file-system entries of `entries` that are `.toml` files, in order.
pub fn toml_layers(entries: Vec<String>) -> (r: Vec<String>)
    ensures
        sorted_paths(texts(r@)),
        texts(r@).to_multiset() == texts(entries@).filter(|p: Seq<char>| is_toml_layer(p)).to_multiset(),
{
    let mut out: Vec<String> = Vec::new();
    let mut i: usize = 0;
    let ghost all = texts(entries@);
    proof {
        assert(all.subrange(0, 0).filter(|p: Seq<char>| is_toml_layer(p)) =~= Seq::<Seq<char>>::empty());
        assert(texts(out@) =~= Seq::<Seq<char>>::empty());
    }
    while i < entries.len()
        invariant
            i <= entries@.len(),
            all == texts(entries@),
            sorted_paths(texts(out@)),
            texts(out@).to_multiset() == all.subrange(0, i as int).filter(|p: Seq<char>| is_toml_layer(p)).to_multiset(),
        decreases entries@.len() - i,
    {
        let path = entries[i].as_str();
        proof {
            assert(all.subrange(0, i + 1).drop_last() =~= all.subrange(0, i as int));
            assert(all.subrange(0, i + 1).last() == path@);
            reveal(Seq::filter);
        }
        if toml_file(path) {
            let mut p: usize = 0;
            while p < out.len() && path_le(out[p].as_str(), path)
                invariant
                    p <= out@.len(),
                    forall|k: int| 0 <= k < p ==> lex_le(#[trigger] texts(out@)[k], path@),
                decreases out@.len() - p,
            {
                p = p + 1;
            }
            let ghost before = texts(out@);
            proof {
                if p < out@.len() {
                    lemma_lex_total(before[p as int], path@);
                }
            }
            out.insert(p, owned(path));
            proof {
                assert(texts(out@) =~= before.insert(p as int, path@));
                vstd::seq_lib::to_multiset_insert(before, p as int, path@);
                vstd::seq_lib::to_multiset_build(all.subrange(0, i as int).filter(|q: Seq<char>| is_toml_layer(q)), path@);
                assert forall|a: int, b: int| 0 <= a < b < texts(out@).len() implies lex_le(
                    #[trigger] texts(out@)[a],
                    #[trigger] texts(out@)[b],
                ) by {
                    let t = texts(out@);
                    if b < p {
                        assert(t[a] == before[a] && t[b] == before[b]);
                    } else if b == p {
                        assert(t[a] == before[a]);
                    } else if a == p {
                        assert(t[b] == before[b - 1]);
                        if b - 1 > p {
                            assert(lex_le(before[p as int], before[b - 1]));
                            lemma_lex_transitive(path@, before[p as int], before[b - 1]);
                        }
                    } else if a < p {
                        assert(t[a] == before[a] && t[b] == before[b - 1]);
                    } else {
                        assert(t[a] == before[a - 1] && t[b] == before[b - 1]);
                    }
                }
            }
        }
        i = i + 1;
    }
    proof {
        assert(all.subrange(0, entries@.len() as int) =~= all);
    }
    out
}

/// Whether `path` names a `.toml` file.
fn toml_file(path: &str) -> (r: bool)
    ensures
        r == is_toml_layer(path@),
{
    let n: usize = path.unicode_len();
    let mut start: usize = n;
    proof {
        assert(path@.subrange(0, n as int) =~= path@);
        assert(path@.subrange(n as int, n as int) =~= Seq::<char>::empty());
    }
    while start > 0 && path.get_char(start - 1) != '/'
        invariant
            n == path@.len(),
            start <= n,
            file_name(path@) == file_name(path@.subrange(0, start as int)) + path@.subrange(start as int, n as int),
        decreases start,
    {
        proof {
            let q = path@.subrange(0, start as int);
            assert(q.drop_last() =~= path@.subrange(0, start - 1));
            assert(path@.subrange(start - 1, n as int) =~= seq![q.last()] + path@.subrange(start as int, n as int));
        }
        start = start - 1;
    }
    proof {
        assert(file_name(path@.subrange(0, start as int)) =~= Seq::<char>::empty());
    }
    let len: usize = n - start;
    if len <= 5 {
        return false;
    }
    let name = path.substring_char(start, n);
    let ext = name.substring_char(len - 5, len);
    proof {
        assert(name@ =~= file_name(path@));
    }
    str_eq(ext, ".toml")
}

/// The configuration files, lowest precedence first: the vendor defaults,
/// the edition layer, the system file, the `.toml` files of the drop-in
/// directory (its entries are `config_d_entries`) in order, and the runtime
/// override.
pub fn default_layer_paths(config_d_entries: Vec<String>) -> (r: Vec<String>)
    ensures
        exists|layers: Seq<Seq<char>>| {
            &&& sorted_paths(layers)
            &&& layers.to_multiset() == texts(config_d_entries@).filter(|p: Seq<char>| is_toml_layer(p)).to_multiset()
            &&& texts(r@) == seq!["/usr/lib/specteros/default.toml"@, "/usr/lib/specteros/edition.toml"@, "/etc/specteros/config.toml"@]
                + layers + seq!["/run/specteros/override.toml"@]
        },
{
    let mut paths: Vec<String> = Vec::new();
    paths.push(owned("/usr/lib/specteros/default.toml"));
    paths.push(owned("/usr/lib/specteros/edition.toml"));
    paths.push(owned("/etc/specteros/config.toml"));
    let ghost fixed = texts(paths@);
    let layers = toml_layers(config_d_entries);
    let mut i: usize = 0;
    while i < layers.len()
        invariant
            i <= layers@.len(),
            fixed == seq!["/usr/lib/specteros/default.toml"@, "/usr/lib/specteros/edition.toml"@, "/etc/specteros/config.toml"@],
            texts(paths@) == fixed + texts(layers@).subrange(0, i as int),
        decreases layers@.len() - i,
    {
        let ghost before = texts(paths@);
        paths.push(layers[i].clone());
        proof {
            assert(texts(paths@) =~= before.push(layers@[i as int]@));
            assert(texts(paths@) =~= fixed + texts(layers@).subrange(0, i + 1));
        }
        i = i + 1;
    }
    let ghost mid = texts(paths@);
    paths.push(owned("/run/specteros/override.toml"));
    proof {
        assert(fixed =~= seq!["/usr/lib/specteros/default.toml"@, "/usr/lib/specteros/edition.toml"@, "/etc/specteros/config.toml"@]);
        assert(texts(layers@).subrange(0, layers@.len() as int) =~= texts(layers@));
        assert(texts(paths@) =~= fixed + texts(layers@) + seq!["/run/specteros/override.toml"@]);
    }
    paths
}

/// `p` alone when `f` holds, else nothing.
pub open spec fn flagged(p: Seq<char>, f: bool) -> Seq<Seq<char>> {
    if f { seq![p] } else { Seq::empty() }
}

/// The report of setting up the runtime layout: the directories that had to
/// be created (those flagged, in the order config, data, log), and all three
/// as checked writable in that order.
pub fn bootstrap_report(paths: &RuntimePaths, created: (bool, bool, bool)) -> (r: RuntimeBootstrapReport)
    ensures
        texts(r.created_paths@) == flagged(paths.config_dir@, created.0) + flagged(paths.data_dir@, created.1)
            + flagged(paths.log_dir@, created.2),
        texts(r.validated_paths@) == seq![paths.config_dir@, paths.data_dir@, paths.log_dir@],
{
    let mut created_paths: Vec<String> = Vec::new();
    if created.0 {
        created_paths.push(paths.config_dir.clone());
    }
    if created.1 {
        created_paths.push(paths.data_dir.clone());
    }
    if created.2 {
        created_paths.push(paths.log_dir.clone());
    }
    let validated_paths = paths.all();
    proof {
        assert(texts(created_paths@) =~= flagged(paths.config_dir@, created.0) + flagged(paths.data_dir@, created.1)
            + flagged(paths.log_dir@, created.2));
    }
    RuntimeBootstrapReport { created_paths, validated_paths }
}

/// What is wrong with a runtime directory, if anything: missing, or not a
/// directory.
pub open spec fn layout_problem_text(path: Seq<char>, exists: bool, is_dir: bool) -> Option<Seq<char>> {
    if !exists {
        Some("required runtime path is missing: "@ + path)
    } else if !is_dir {
        Some("required runtime path is not a directory: "@ + path)
    } else {
        None
    }
}

/// The message for a runtime directory that is missing or is no directory.
pub fn layout_problem(path: &str, exists: bool, is_dir: bool) -> (r: Option<String>)
    ensures
        match r {
            Some(m) => layout_problem_text(path@, exists, is_dir) == Some(m@),
            None => layout_problem_text(path@, exists, is_dir) is None,
        },
{
    if !exists {
        Some(crate::text::cat("required runtime path is missing: ", path))
    } else if !is_dir {
        Some(crate::text::cat("required runtime path is not a directory: ", path))
    } else {
        None
    }
}

} // verus!
