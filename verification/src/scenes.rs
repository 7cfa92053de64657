//! Scenes: named snapshots of how the interfaces of the machine are
//! configured, to be put back later.

use vstd::prelude::*;
use vstd::string::StringExecFns;
use crate::config::{NetworkConfigView, StaticConfig};
use crate::inventory::NetworkAdapter;
use crate::network::{dhcp_profile, static_profile};
use crate::text::{
    chars_of, copy_text, copy_texts, has_prefix, matches_at, same_text,
};

verus! {

/// The name under which the configuration is kept that was found before
/// a scene was applied.
pub const BACKUP_NAME: &'static str = "_backup_before_scene";

/// What the names of the files begin with that hold such copies.
pub const BACKUP_PREFIX: &'static str = "_backup_";

/// What the names of the files end with that hold scenes.
pub const SCENE_SUFFIX: &'static str = ".json";

/// How one interface is configured in a scene.
#[derive(Clone, Debug, PartialEq, Eq)]
pub struct NetworkConfig {
    pub is_dhcp: bool,
    pub ip: Option<String>,
    pub subnet: Option<String>,
    pub gateway: Option<String>,
    pub dns: Option<Vec<String>>,
}

/// The proxy settings of a scene.
#[derive(Clone, Debug, PartialEq, Eq)]
pub struct ProxyConfig {
    pub enabled: bool,
    pub server: String,
    pub bypass: Vec<String>,
}

/// A scene.
#[derive(Clone, Debug, PartialEq, Eq)]
pub struct Scene {
    pub name: String,
    /// The configuration of each interface, under the interface's name;
    /// no name stands twice.
    pub network_configs: Vec<(String, NetworkConfig)>,
    pub hosts_content: Option<String>,
    pub proxy_config: Option<ProxyConfig>,
    /// The colour of the tray icon while the scene is on, as `#RRGGBB`.
    pub tray_color: Option<String>,
}

/// A `NetworkConfig` with its texts as sequences of characters.
pub struct SceneConfigView {
    pub is_dhcp: bool,
    pub ip: Option<Seq<char>>,
    pub subnet: Option<Seq<char>>,
    pub gateway: Option<Seq<char>>,
    pub dns: Option<Seq<Seq<char>>>,
}

impl View for NetworkConfig {
    type V = SceneConfigView;

    open spec fn view(&self) -> SceneConfigView {
        SceneConfigView {
            is_dhcp: self.is_dhcp,
            ip: self.ip.deep_view(),
            subnet: self.subnet.deep_view(),
            gateway: self.gateway.deep_view(),
            dns: self.dns.deep_view(),
        }
    }
}

/// How the interface `adapter` is configured, as a scene keeps it.
pub open spec fn config_of(adapter: NetworkAdapter) -> SceneConfigView {
    SceneConfigView {
        is_dhcp: adapter.is_dhcp,
        ip: adapter.ip_address.deep_view(),
        subnet: adapter.subnet_mask.deep_view(),
        gateway: adapter.gateway.deep_view(),
        dns: adapter.dns_servers.deep_view(),
    }
}

/// The entries of a scene with their texts as sequences of characters.
pub open spec fn entries_view(entries: Seq<(String, NetworkConfig)>) -> Seq<
    (Seq<char>, SceneConfigView),
> {
    Seq::new(entries.len(), |i: int| (entries[i].0@, entries[i].1@))
}

/// The first place at which `entries` holds an entry under `name`.
pub open spec fn place_of(entries: Seq<(Seq<char>, SceneConfigView)>, name: Seq<char>) -> Option<
    int,
>
    decreases entries.len(),
{
    if entries.len() == 0 {
        None
    } else {
        match place_of(entries.drop_last(), name) {
            Some(at) => Some(at),
            None => if entries.last().0 == name {
                Some(entries.len() - 1)
            } else {
                None
            },
        }
    }
}

/// `entries` with `config` entered under `name`: in the place of the
/// entry that stands under that name, or at the end where none does.
pub open spec fn entered(
    entries: Seq<(Seq<char>, SceneConfigView)>,
    name: Seq<char>,
    config: SceneConfigView,
) -> Seq<(Seq<char>, SceneConfigView)> {
    match place_of(entries, name) {
        Some(at) => entries.update(at, (name, config)),
        None => entries.push((name, config)),
    }
}

/// The entries that a snapshot of `adapters` holds: each interface is
/// entered under its name, in order, so that of two interfaces of one
/// name the later one stays.
pub open spec fn snapshot_of(adapters: Seq<NetworkAdapter>) -> Seq<(Seq<char>, SceneConfigView)>
    decreases adapters.len(),
{
    if adapters.len() == 0 {
        Seq::<(Seq<char>, SceneConfigView)>::empty()
    } else {
        entered(
            snapshot_of(adapters.drop_last()),
            adapters.last().name@,
            config_of(adapters.last()),
        )
    }
}

/// No name stands twice in `entries`.
pub open spec fn names_distinct(entries: Seq<(Seq<char>, SceneConfigView)>) -> bool {
    forall|i: int, j: int|
        0 <= i < j < entries.len() ==> (#[trigger] entries[i]).0 != (#[trigger] entries[j]).0
}

/// Where `place_of` finds a name, the name stands; where it finds none,
/// it stands nowhere.
pub proof fn lemma_place_of(entries: Seq<(Seq<char>, SceneConfigView)>, name: Seq<char>)
    ensures
        match place_of(entries, name) {
            Some(at) => 0 <= at < entries.len() && entries[at].0 == name && forall|i: int|
                0 <= i < at ==> (#[trigger] entries[i]).0 != name,
            None => forall|i: int| 0 <= i < entries.len() ==> (#[trigger] entries[i]).0 != name,
        },
    decreases entries.len(),
{
    if entries.len() > 0 {
        let before = entries.drop_last();
        lemma_place_of(before, name);
        assert forall|i: int| 0 <= i < before.len() implies before[i] == entries[i] by {}
        match place_of(before, name) {
            Some(at) => {
                assert forall|i: int| 0 <= i < at implies (#[trigger] entries[i]).0 != name by {
                    assert(before[i] == entries[i]);
                }
            },
            None => {
                assert forall|i: int| 0 <= i < before.len() implies (#[trigger] entries[i]).0
                    != name by {
                    assert(before[i] == entries[i]);
                }
            },
        }
    }
}

/// Entering a configuration under a name keeps the names apart.
pub proof fn lemma_entered_distinct(
    entries: Seq<(Seq<char>, SceneConfigView)>,
    name: Seq<char>,
    config: SceneConfigView,
)
    requires
        names_distinct(entries),
    ensures
        names_distinct(entered(entries, name, config)),
{
    lemma_place_of(entries, name);
}

/// In a snapshot no name stands twice.
pub proof fn law_snapshot_names_distinct(adapters: Seq<NetworkAdapter>)
    ensures
        names_distinct(snapshot_of(adapters)),
    decreases adapters.len(),
{
    if adapters.len() > 0 {
        law_snapshot_names_distinct(adapters.drop_last());
        lemma_entered_distinct(
            snapshot_of(adapters.drop_last()),
            adapters.last().name@,
            config_of(adapters.last()),
        );
    }
}

impl NetworkConfig {
    /// How the interface `adapter` is configured, as a scene keeps it.
    pub fn of_adapter(adapter: &NetworkAdapter) -> (r: NetworkConfig)
        ensures
            r@ == config_of(*adapter),
    {
        NetworkConfig {
            is_dhcp: adapter.is_dhcp,
            ip: copy_text(&adapter.ip_address),
            subnet: copy_text(&adapter.subnet_mask),
            gateway: copy_text(&adapter.gateway),
            dns: match &adapter.dns_servers {
                Some(servers) => Some(copy_texts(servers)),
                None => None,
            },
        }
    }
}

/// Enters `config` under `name`: in the place of the entry that stands
/// under that name, or at the end where none does.
pub fn enter(entries: &mut Vec<(String, NetworkConfig)>, name: String, config: NetworkConfig)
    ensures
        entries_view(final(entries)@) == entered(entries_view(old(entries)@), name@, config@),
{
    let ghost before = entries_view(entries@);
    let mut i: usize = 0;
    while i < entries.len()
        invariant
            i <= entries.len(),
            before == entries_view(old(entries)@),
            entries_view(entries@) == before,
            place_of(before.take(i as int), name@) is None,
        decreases entries.len() - i,
    {
        let ghost upto = before.take(i + 1);
        proof {
            assert(upto.drop_last() == before.take(i as int));
            assert(upto.last() == before[i as int]);
            assert(before[i as int].0 == entries[i as int].0@);
        }
        if same_text(entries[i].0.as_str(), name.as_str()) {
            proof {
                assert(place_of(upto, name@) == Some(i as int));
                lemma_place_extends(before, i + 1, name@);
            }
            let ghost entry = (name@, config@);
            entries.set(i, (name, config));
            proof {
                assert(place_of(before, entry.0) == Some(i as int));
                assert(entries_view(entries@) =~= before.update(i as int, entry));
            }
            return ;
        }
        i += 1;
    }
    proof {
        assert(before.take(entries.len() as int) == before);
    }
    entries.push((name, config));
    proof {
        assert(entries_view(entries@) =~= before.push((name@, config@)));
    }
}

/// A name that is found among the first `k` entries is found at the same
/// place among all of them.
pub proof fn lemma_place_extends(
    entries: Seq<(Seq<char>, SceneConfigView)>,
    k: int,
    name: Seq<char>,
)
    requires
        0 <= k <= entries.len(),
        place_of(entries.take(k), name) is Some,
    ensures
        place_of(entries, name) == place_of(entries.take(k), name),
    decreases entries.len() - k,
{
    if k < entries.len() {
        let more = entries.take(k + 1);
        assert(more.drop_last() == entries.take(k));
        lemma_place_extends(entries, k + 1, name);
    } else {
        assert(entries.take(k) == entries);
    }
}

/// The entries of a snapshot of `adapters`.
pub fn snapshot(adapters: &Vec<NetworkAdapter>) -> (r: Vec<(String, NetworkConfig)>)
    ensures
        entries_view(r@) == snapshot_of(adapters@),
{
    let mut r: Vec<(String, NetworkConfig)> = Vec::new();
    let mut i: usize = 0;
    proof {
        assert(entries_view(r@) =~= snapshot_of(adapters@.take(0)));
    }
    while i < adapters.len()
        invariant
            i <= adapters.len(),
            entries_view(r@) == snapshot_of(adapters@.take(i as int)),
        decreases adapters.len() - i,
    {
        let ghost upto = adapters@.take(i + 1);
        proof {
            assert(upto.drop_last() == adapters@.take(i as int));
            assert(upto.last() == adapters[i as int]);
        }
        enter(&mut r, adapters[i].name.clone(), NetworkConfig::of_adapter(&adapters[i]));
        i += 1;
    }
    proof {
        assert(adapters@.take(adapters.len() as int) == adapters@);
    }
    r
}

/// The scene that keeps, under the name `scene_name`, how the interfaces
/// `adapters` are configured, with the hosts file and the proxy settings
/// as they were found; it has no colour of its own.
pub fn save_scene(
    scene_name: String,
    adapters: &Vec<NetworkAdapter>,
    hosts_content: Option<String>,
    proxy_config: Option<ProxyConfig>,
) -> (r: Scene)
    ensures
        r.name == scene_name,
        entries_view(r.network_configs@) == snapshot_of(adapters@),
        r.hosts_content == hosts_content,
        r.proxy_config == proxy_config,
        r.tray_color is None,
{
    Scene {
        name: scene_name,
        network_configs: snapshot(adapters),
        hosts_content,
        proxy_config,
        tray_color: None,
    }
}

/// The scene that keeps how the interfaces `adapters` are configured
/// before another scene is applied: their configuration and nothing
/// else.
pub fn save_backup(adapters: &Vec<NetworkAdapter>) -> (r: Scene)
    ensures
        r.name@ == BACKUP_NAME@,
        entries_view(r.network_configs@) == snapshot_of(adapters@),
        r.hosts_content is None,
        r.proxy_config is None,
        r.tray_color is None,
{
    Scene {
        name: BACKUP_NAME.to_owned(),
        network_configs: snapshot(adapters),
        hosts_content: None,
        proxy_config: None,
        tray_color: None,
    }
}

/// The scene `existing`, or an empty scene of the name `scene_name`
/// where there is none, brought up to date: the configurations of the
/// interfaces are replaced; the hosts file, the proxy settings and the
/// colour are replaced where new ones are given and stay where not.
pub fn update_scene(
    existing: Option<Scene>,
    scene_name: String,
    network_configs: Vec<(String, NetworkConfig)>,
    hosts_content: Option<String>,
    proxy_config: Option<ProxyConfig>,
    tray_color: Option<String>,
) -> (r: Scene)
    ensures
        r.name == match existing {
            Some(scene) => scene.name,
            None => scene_name,
        },
        r.network_configs == network_configs,
        r.hosts_content == if hosts_content is Some || existing is None {
            hosts_content
        } else {
            existing.unwrap().hosts_content
        },
        r.proxy_config == if proxy_config is Some || existing is None {
            proxy_config
        } else {
            existing.unwrap().proxy_config
        },
        r.tray_color == if tray_color is Some || existing is None {
            tray_color
        } else {
            existing.unwrap().tray_color
        },
{
    let mut scene = match existing {
        Some(scene) => scene,
        None => Scene {
            name: scene_name,
            network_configs: Vec::new(),
            hosts_content: None,
            proxy_config: None,
            tray_color: None,
        },
    };
    scene.network_configs = network_configs;
    if hosts_content.is_some() {
        scene.hosts_content = hosts_content;
    }
    if proxy_config.is_some() {
        scene.proxy_config = proxy_config;
    }
    if tray_color.is_some() {
        scene.tray_color = tray_color;
    }
    scene
}

/// The DNS servers of an entry; none where it names none.
pub open spec fn servers_or_none(dns: Option<Seq<Seq<char>>>) -> Seq<Seq<char>> {
    match dns {
        Some(servers) => servers,
        None => Seq::<Seq<char>>::empty(),
    }
}

/// The profile that putting an entry of a scene back comes to: DHCP for
/// an entry that used DHCP; for any other the static profile of its
/// address, mask and gateway, where it has all three; nothing where one
/// of them is missing.
pub open spec fn profile_of(config: SceneConfigView) -> Option<NetworkConfigView> {
    if config.is_dhcp {
        Some(dhcp_profile())
    } else if config.ip is Some && config.subnet is Some && config.gateway is Some {
        Some(
            static_profile(
                config.ip.unwrap(),
                config.subnet.unwrap(),
                config.gateway.unwrap(),
                servers_or_none(config.dns),
            ),
        )
    } else {
        None
    }
}

/// The view of a profile that may be missing.
pub open spec fn profile_view(r: Option<crate::config::NetworkConfig>) -> Option<
    NetworkConfigView,
> {
    match r {
        Some(profile) => Some(profile@),
        None => None,
    }
}

/// The profile that putting an entry of a scene back comes to.
pub fn scene_profile(config: &NetworkConfig) -> (r: Option<crate::config::NetworkConfig>)
    ensures
        profile_view(r) == profile_of(config@),
{
    if config.is_dhcp {
        return Some(
            crate::config::NetworkConfig {
                mode: "dhcp".to_owned(),
                dhcp: None,
                static_config: None,
                ping_target: "".to_owned(),
            },
        );
    }
    match (&config.ip, &config.subnet, &config.gateway) {
        (Some(ip), Some(subnet), Some(gateway)) => {
            let dns: Vec<String> = match &config.dns {
                Some(servers) => copy_texts(servers),
                None => Vec::new(),
            };
            proof {
                assert(dns.deep_view() =~= servers_or_none(config.dns.deep_view()));
            }
            Some(
                crate::config::NetworkConfig {
                    mode: "static".to_owned(),
                    dhcp: None,
                    static_config: Some(
                        StaticConfig {
                            ip: ip.clone(),
                            subnet: subnet.clone(),
                            gateway: gateway.clone(),
                            dns: Some(dns),
                        },
                    ),
                    ping_target: "".to_owned(),
                },
            )
        },
        _ => None,
    }
}

/// The changes that a list of entries comes to: for each entry that
/// gives a profile, in order, the name of the interface and the profile
/// to put on it.
pub open spec fn changes_of(entries: Seq<(Seq<char>, SceneConfigView)>) -> Seq<
    (Seq<char>, NetworkConfigView),
>
    decreases entries.len(),
{
    if entries.len() == 0 {
        Seq::<(Seq<char>, NetworkConfigView)>::empty()
    } else {
        match profile_of(entries.last().1) {
            Some(profile) => changes_of(entries.drop_last()).push((entries.last().0, profile)),
            None => changes_of(entries.drop_last()),
        }
    }
}

/// A list of changes with its texts as sequences of characters.
pub open spec fn changes_view(changes: Seq<(String, crate::config::NetworkConfig)>) -> Seq<
    (Seq<char>, NetworkConfigView),
> {
    Seq::new(changes.len(), |i: int| (changes[i].0@, changes[i].1@))
}

/// The changes that applying a scene comes to: for each of its entries
/// that gives a profile, in order, the name of the interface and the
/// profile to put on it.
pub fn apply_scene(scene: &Scene) -> (r: Vec<(String, crate::config::NetworkConfig)>)
    ensures
        changes_view(r@) == changes_of(entries_view(scene.network_configs@)),
{
    let entries = &scene.network_configs;
    let ghost all = entries_view(entries@);
    let mut r: Vec<(String, crate::config::NetworkConfig)> = Vec::new();
    let mut j: usize = 0;
    proof {
        assert(changes_view(r@) =~= changes_of(all.take(0)));
    }
    while j < entries.len()
        invariant
            j <= entries.len(),
            all == entries_view(entries@),
            changes_view(r@) == changes_of(all.take(j as int)),
        decreases entries.len() - j,
    {
        let ghost upto = all.take(j + 1);
        let ghost before = changes_view(r@);
        proof {
            assert(upto.drop_last() == all.take(j as int));
            assert(upto.last() == (entries[j as int].0@, entries[j as int].1@));
        }
        match scene_profile(&entries[j].1) {
            Some(profile) => {
                let ghost added = (entries[j as int].0@, profile@);
                r.push((entries[j].0.clone(), profile));
                proof {
                    assert(changes_view(r@) =~= before.push(added));
                }
            },
            None => {},
        }
        j += 1;
    }
    proof {
        assert(all.take(entries.len() as int) == all);
    }
    r
}

/// The changes that putting a backup back comes to: those of applying it
/// as a scene.
pub fn restore_backup(backup: &Scene) -> (r: Vec<(String, crate::config::NetworkConfig)>)
    ensures
        changes_view(r@) == changes_of(entries_view(backup.network_configs@)),
{
    apply_scene(backup)
}

/// The name of the file that holds the scene `scene_name`.
pub fn scene_file_name(scene_name: &str) -> (r: String)
    ensures
        r@ == scene_name@ + SCENE_SUFFIX@,
{
    let mut r = scene_name.to_owned();
    r.append(SCENE_SUFFIX);
    r
}

/// Whether a file of the name `file_name` holds a scene to be listed: the
/// name ends with `.json` after at least one other character, and does
/// not begin as the names of backups do.
pub open spec fn names_scene(file_name: Seq<char>) -> bool {
    &&& file_name.len() > SCENE_SUFFIX@.len()
    &&& file_name.subrange(file_name.len() - SCENE_SUFFIX@.len(), file_name.len() as int)
        == SCENE_SUFFIX@
    &&& !has_prefix(
        file_name.subrange(0, file_name.len() - SCENE_SUFFIX@.len()),
        BACKUP_PREFIX@,
    )
}

/// Tests whether a file of the name `file_name` holds a scene to be
/// listed.
pub fn is_scene_file(file_name: &str) -> (r: bool)
    ensures
        r == names_scene(file_name@),
{
    let name = chars_of(file_name);
    let suffix = chars_of(SCENE_SUFFIX);
    let prefix = chars_of(BACKUP_PREFIX);
    if name.len() <= suffix.len() {
        return false;
    }
    let stem_len = name.len() - suffix.len();
    if !matches_at(&name, &suffix, stem_len) {
        return false;
    }
    if prefix.len() <= stem_len && matches_at(&name, &prefix, 0) {
        proof {
            assert(name@.subrange(0, stem_len as int).subrange(0, prefix.len() as int)
                == name@.subrange(0, prefix.len() as int));
        }
        return false;
    }
    proof {
        let stem = name@.subrange(0, stem_len as int);
        if has_prefix(stem, prefix@) {
            assert(stem.subrange(0, prefix.len() as int) == name@.subrange(
                0,
                prefix.len() as int,
            ));
        }
    }
    true
}

/// Tests whether the scenes of an earlier installation are to be moved
/// to where scenes are kept now: there must be such scenes, and nothing
/// may stand yet in the place they go to.
pub fn should_migrate(legacy_exists: bool, target_exists: bool, target_empty: bool) -> (r: bool)
    ensures
        r == (legacy_exists && (!target_exists || target_empty)),
{
    if !legacy_exists {
        return false;
    }
    if target_exists && !target_empty {
        return false;
    }
    true
}

} // verus!
