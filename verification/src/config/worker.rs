//! The cache of subscribed items and their listeners.
//!
//! Listeners are known to the cache by handle. The cache decides who is
//! told about a change, with which snapshot and in which order; the caller
//! owns the callables and invokes them as the returned notifications say.

use crate::api::client_config::ClientConfig;
use crate::api::config::{ConfigResponse, ConfigResponseView};
use crate::config::client_request::ConfigListenContext;
use crate::config::util::{group_key, lemma_group_key_injective, spec_group_key};
use vstd::hash_map::StringHashMap;
use vstd::prelude::*;
use vstd::string::*;

verus! {

/// The content type of an item of which the server has said none.
pub const DEFAULT_CONTENT_TYPE: &'static str = "text";

/// The text of an optional string.
pub open spec fn text_of(value: Option<String>) -> Option<Seq<char>> {
    match value {
        Some(text) => Some(text@),
        None => None,
    }
}

/// The model of a [`CacheData`].
pub struct CacheDataView {
    pub data_id: Seq<char>,
    pub group: Seq<char>,
    pub tenant: Seq<char>,
    pub content_type: Seq<char>,
    pub content: Seq<char>,
    pub md5: Seq<char>,
    pub encrypted_data_key: Option<Seq<char>>,
    pub last_modified: i64,
    pub need_sync_server: bool,
    /// The handles of the listeners, in the order of their registration.
    pub listeners: Seq<u64>,
}

/// What a refresh writes into an entry.
pub struct ContentUpdate {
    pub content: Seq<char>,
    pub content_type: Seq<char>,
    pub md5: Seq<char>,
    pub encrypted_data_key: Option<Seq<char>>,
    pub last_modified: i64,
}

impl CacheDataView {
    /// The entry of an item that was just created: default content type,
    /// no content, no listener.
    pub open spec fn fresh(data_id: Seq<char>, group: Seq<char>, tenant: Seq<char>) -> Self {
        CacheDataView {
            data_id,
            group,
            tenant,
            content_type: DEFAULT_CONTENT_TYPE@,
            content: Seq::empty(),
            md5: Seq::empty(),
            encrypted_data_key: None,
            last_modified: 0,
            need_sync_server: false,
            listeners: Seq::empty(),
        }
    }

    /// Whether this is the entry of the item `(data_id, group, tenant)`.
    pub open spec fn is_item(
        self,
        data_id: Seq<char>,
        group: Seq<char>,
        tenant: Seq<char>,
    ) -> bool {
        self.data_id == data_id && self.group == group && self.tenant == tenant
    }

    /// The key under which the entry is cached.
    pub open spec fn key(self) -> Seq<char> {
        spec_group_key(self.data_id, self.group, self.tenant)
    }

    /// The entry with one more listener, registered last.
    pub open spec fn with_listener(self, listener: u64) -> Self {
        CacheDataView { listeners: self.listeners.push(listener), ..self }
    }

    /// The entry marked as known stale.
    pub open spec fn marked_stale(self) -> Self {
        CacheDataView { need_sync_server: true, ..self }
    }

    /// The entry after a refresh: new content, digest, key token and
    /// timestamp, no longer stale, the same listeners.
    pub open spec fn refreshed(self, update: ContentUpdate) -> Self {
        CacheDataView {
            content_type: update.content_type,
            content: update.content,
            md5: update.md5,
            encrypted_data_key: update.encrypted_data_key,
            last_modified: update.last_modified,
            need_sync_server: false,
            ..self
        }
    }

    /// The snapshot of the entry that its listeners receive.
    pub open spec fn snapshot(self) -> ConfigResponseView {
        ConfigResponseView {
            namespace: self.tenant,
            data_id: self.data_id,
            group: self.group,
            content: self.content,
            content_type: self.content_type,
        }
    }

    /// One notification per listener, in the order of registration, each
    /// with the same snapshot.
    pub open spec fn notifications(self, response: ConfigResponseView) -> Seq<NotificationView> {
        Seq::new(
            self.listeners.len(),
            |i: int| NotificationView { listener: self.listeners[i], response },
        )
    }
}

/// The order to invoke one listener with one snapshot.
#[derive(Debug, PartialEq, Eq)]
pub struct Notification {
    /// The handle under which the listener was registered.
    pub listener: u64,
    /// What the listener receives.
    pub response: ConfigResponse,
}

/// The model of a [`Notification`].
pub struct NotificationView {
    pub listener: u64,
    pub response: ConfigResponseView,
}

impl View for Notification {
    type V = NotificationView;

    open spec fn view(&self) -> NotificationView {
        NotificationView { listener: self.listener, response: self.response@ }
    }
}

/// The models of a list of notifications.
pub open spec fn notification_views(notifications: Seq<Notification>) -> Seq<NotificationView> {
    Seq::new(notifications.len(), |i: int| notifications[i]@)
}

/// Cache Data for Config
#[derive(Debug)]
pub struct CacheData {
    data_id: String,
    group: String,
    tenant: String,
    /// Default text; text, json, properties, html, xml, yaml ...
    content_type: String,
    content: String,
    md5: String,
    /// whether content was encrypted with encryptedDataKey.
    encrypted_data_key: Option<String>,
    last_modified: i64,
    /// Mark the cache config is not the latest, need to query the server for synchronize
    need_sync_server: bool,
    /// who listen of config change.
    listeners: Vec<u64>,
}

impl View for CacheData {
    type V = CacheDataView;

    closed spec fn view(&self) -> CacheDataView {
        CacheDataView {
            data_id: self.data_id@,
            group: self.group@,
            tenant: self.tenant@,
            content_type: self.content_type@,
            content: self.content@,
            md5: self.md5@,
            encrypted_data_key: text_of(self.encrypted_data_key),
            last_modified: self.last_modified,
            need_sync_server: self.need_sync_server,
            listeners: self.listeners@,
        }
    }
}

impl CacheData {
    /// The entry of a new item.
    pub fn new(data_id: String, group: String, tenant: String) -> (r: Self)
        ensures
            r@ == CacheDataView::fresh(data_id@, group@, tenant@),
    {
        CacheData {
            data_id,
            group,
            tenant,
            content_type: String::from_str(DEFAULT_CONTENT_TYPE),
            content: String::new(),
            md5: String::new(),
            encrypted_data_key: None,
            last_modified: 0,
            need_sync_server: false,
            listeners: Vec::new(),
        }
    }

    /// Add listener.
    pub fn add_listener(&mut self, listener: u64)
        ensures
            final(self)@ == old(self)@.with_listener(listener),
    {
        self.listeners.push(listener);
    }

    /// Marks the entry as known stale.
    pub fn mark_stale(&mut self)
        ensures
            final(self)@ == old(self)@.marked_stale(),
    {
        self.need_sync_server = true;
    }

    /// Writes what the server holds into the entry, which is then no
    /// longer stale.
    pub fn refresh(
        &mut self,
        content: String,
        content_type: String,
        md5: String,
        encrypted_data_key: Option<String>,
        last_modified: i64,
    )
        ensures
            final(self)@ == old(self)@.refreshed(
                ContentUpdate {
                    content: content@,
                    content_type: content_type@,
                    md5: md5@,
                    encrypted_data_key: text_of(encrypted_data_key),
                    last_modified,
                },
            ),
    {
        self.content = content;
        self.content_type = content_type;
        self.md5 = md5;
        self.encrypted_data_key = encrypted_data_key;
        self.last_modified = last_modified;
        self.need_sync_server = false;
    }

    /// The snapshot of the entry that its listeners receive.
    pub fn snapshot(&self) -> (r: ConfigResponse)
        ensures
            r@ == self@.snapshot(),
    {
        ConfigResponse::new(
            self.data_id.clone(),
            self.group.clone(),
            self.tenant.clone(),
            self.content.clone(),
            self.content_type.clone(),
        )
    }

    /// Notify listener.
    ///
    /// Orders every listener of the entry to be invoked once with
    /// `config_response`, in the order of registration.
    pub fn notify_listener(&self, config_response: ConfigResponse) -> (r: Vec<Notification>)
        ensures
            notification_views(r@) == self@.notifications(config_response@),
    {
        let mut out: Vec<Notification> = Vec::new();
        let n = self.listeners.len();
        let mut i: usize = 0;
        while i < n
            invariant
                n == self.listeners@.len(),
                i <= n,
                out@.len() == i,
                forall|j: int|
                    0 <= j < i ==> (#[trigger] out@[j])@ == (NotificationView {
                        listener: self.listeners@[j],
                        response: config_response@,
                    }),
            decreases n - i,
        {
            let response = config_response.clone();
            out.push(Notification { listener: self.listeners[i], response });
            i = i + 1;
        }
        assert(notification_views(out@) =~= self@.notifications(config_response@));
        out
    }

    /// What a listen registration says of the entry: the item and the
    /// digest of the content last seen.
    pub fn listen_context(&self) -> (r: ConfigListenContext)
        ensures
            r.data_id@ == self@.data_id,
            r.group@ == self@.group,
            r.tenant@ == self@.tenant,
            r.md5@ == self@.md5,
    {
        ConfigListenContext::new(
            self.data_id.clone(),
            self.group.clone(),
            self.tenant.clone(),
            self.md5.clone(),
        )
    }

    pub fn get_data_id(&self) -> (r: &String)
        ensures
            r@ == self@.data_id,
    {
        &self.data_id
    }

    pub fn get_group(&self) -> (r: &String)
        ensures
            r@ == self@.group,
    {
        &self.group
    }

    pub fn get_tenant(&self) -> (r: &String)
        ensures
            r@ == self@.tenant,
    {
        &self.tenant
    }

    pub fn get_content(&self) -> (r: &String)
        ensures
            r@ == self@.content,
    {
        &self.content
    }

    pub fn get_content_type(&self) -> (r: &String)
        ensures
            r@ == self@.content_type,
    {
        &self.content_type
    }

    pub fn get_md5(&self) -> (r: &String)
        ensures
            r@ == self@.md5,
    {
        &self.md5
    }

    pub fn get_encrypted_data_key(&self) -> (r: Option<&String>)
        ensures
            r.is_some() == self@.encrypted_data_key.is_some(),
            r.is_some() ==> r.unwrap()@ == self@.encrypted_data_key.unwrap(),
    {
        self.encrypted_data_key.as_ref()
    }

    pub fn get_last_modified(&self) -> (r: i64)
        ensures
            r == self@.last_modified,
    {
        self.last_modified
    }

    pub fn is_stale(&self) -> (r: bool)
        ensures
            r == self@.need_sync_server,
    {
        self.need_sync_server
    }

    pub fn get_listeners(&self) -> (r: &Vec<u64>)
        ensures
            r@ == self@.listeners,
    {
        &self.listeners
    }
}

/// Whether `entries` holds the item `(data_id, group, tenant)`.
pub open spec fn has_item(
    entries: Seq<CacheDataView>,
    data_id: Seq<char>,
    group: Seq<char>,
    tenant: Seq<char>,
) -> bool {
    exists|i: int| 0 <= i < entries.len() && (#[trigger] entries[i]).is_item(data_id, group, tenant)
}

/// Where `entries` holds the item `(data_id, group, tenant)`, if it does.
pub open spec fn item_position(
    entries: Seq<CacheDataView>,
    data_id: Seq<char>,
    group: Seq<char>,
    tenant: Seq<char>,
) -> int {
    choose|i: int| 0 <= i < entries.len() && (#[trigger] entries[i]).is_item(data_id, group, tenant)
}

/// No item has two entries.
pub open spec fn distinct_items(entries: Seq<CacheDataView>) -> bool {
    forall|i: int, j: int|
        0 <= i < entries.len() && 0 <= j < entries.len() && i != j ==> !(#[trigger] entries[i])
            .is_item((#[trigger] entries[j]).data_id, entries[j].group, entries[j].tenant)
}

/// The cache after `listener` was registered for an item: the item's entry
/// is created if there is none, and the listener is the last of the entry.
pub open spec fn with_listener(
    entries: Seq<CacheDataView>,
    data_id: Seq<char>,
    group: Seq<char>,
    tenant: Seq<char>,
    listener: u64,
) -> Seq<CacheDataView> {
    if has_item(entries, data_id, group, tenant) {
        let i = item_position(entries, data_id, group, tenant);
        entries.update(i, entries[i].with_listener(listener))
    } else {
        entries.push(CacheDataView::fresh(data_id, group, tenant).with_listener(listener))
    }
}

/// The cache after an item was reported as changed: its entry, if there
/// is one, is marked stale.
pub open spec fn marked_stale(
    entries: Seq<CacheDataView>,
    data_id: Seq<char>,
    group: Seq<char>,
    tenant: Seq<char>,
) -> Seq<CacheDataView> {
    if has_item(entries, data_id, group, tenant) {
        let i = item_position(entries, data_id, group, tenant);
        entries.update(i, entries[i].marked_stale())
    } else {
        entries
    }
}

/// The cache after an item was refreshed: its entry, if there is one,
/// holds the update.
pub open spec fn refreshed(
    entries: Seq<CacheDataView>,
    data_id: Seq<char>,
    group: Seq<char>,
    tenant: Seq<char>,
    update: ContentUpdate,
) -> Seq<CacheDataView> {
    if has_item(entries, data_id, group, tenant) {
        let i = item_position(entries, data_id, group, tenant);
        entries.update(i, entries[i].refreshed(update))
    } else {
        entries
    }
}

/// Who is told about the present state of an item: every listener of its
/// entry once, in the order of registration, with the entry's snapshot;
/// nobody if the item has no entry.
pub open spec fn notifications_for(
    entries: Seq<CacheDataView>,
    data_id: Seq<char>,
    group: Seq<char>,
    tenant: Seq<char>,
) -> Seq<NotificationView> {
    if has_item(entries, data_id, group, tenant) {
        let e = entries[item_position(entries, data_id, group, tenant)];
        e.notifications(e.snapshot())
    } else {
        Seq::empty()
    }
}

/// In a cache without doubles, the entry of an item is found at one place
/// only.
pub proof fn lemma_item_position(
    entries: Seq<CacheDataView>,
    data_id: Seq<char>,
    group: Seq<char>,
    tenant: Seq<char>,
    i: int,
)
    requires
        distinct_items(entries),
        0 <= i < entries.len(),
        entries[i].is_item(data_id, group, tenant),
    ensures
        has_item(entries, data_id, group, tenant),
        item_position(entries, data_id, group, tenant) == i,
{
    let p = item_position(entries, data_id, group, tenant);
    assert(0 <= p < entries.len() && entries[p].is_item(data_id, group, tenant));
    if p != i {
        assert(entries[p].is_item(entries[i].data_id, entries[i].group, entries[i].tenant));
    }
}

/// The map from the key of each cached item to its [`CacheData`].
pub struct ConfigWorker {
    client_config: ClientConfig,
    /// For the key of each cached item, the place of its entry.
    index: StringHashMap<usize>,
    /// The entries, in the order of their creation.
    cache_data: Vec<CacheData>,
}

impl ConfigWorker {
    /// The entries of the cache, in the order of their creation.
    pub closed spec fn entries(&self) -> Seq<CacheDataView> {
        Seq::new(self.cache_data@.len(), |i: int| self.cache_data@[i]@)
    }

    /// The index and the entries agree.
    pub closed spec fn indexed(&self) -> bool {
        &&& forall|i: int|
            0 <= i < self.cache_data@.len() ==> {
                &&& self.index@.contains_key(#[trigger] self.cache_data@[i]@.key())
                &&& self.index@[self.cache_data@[i]@.key()] == i
            }
        &&& forall|k: Seq<char>| #[trigger]
            self.index@.contains_key(k) ==> {
                &&& self.index@[k] < self.cache_data@.len()
                &&& self.cache_data@[self.index@[k] as int]@.key() == k
            }
    }

    /// The cache is well formed: every entry is found through its key, and
    /// no item has two entries.
    pub open spec fn wf(&self) -> bool {
        self.indexed() && distinct_items(self.entries())
    }

    /// The options that the cache was made with.
    pub closed spec fn config(&self) -> ClientConfig {
        self.client_config
    }

    /// An empty cache.
    pub fn new(client_config: ClientConfig) -> (r: Self)
        ensures
            r.wf(),
            r.entries() == Seq::<CacheDataView>::empty(),
            r.config() == client_config,
    {
        let r = ConfigWorker { client_config, index: StringHashMap::new(), cache_data: Vec::new() };
        assert(r.entries() =~= Seq::<CacheDataView>::empty());
        r
    }

    /// Connects what the index says of a key with what the model says of
    /// the item.
    proof fn lemma_lookup(&self, data_id: Seq<char>, group: Seq<char>, tenant: Seq<char>)
        requires
            self.wf(),
        ensures
            self.index@.contains_key(spec_group_key(data_id, group, tenant)) == has_item(
                self.entries(),
                data_id,
                group,
                tenant,
            ),
            has_item(self.entries(), data_id, group, tenant) ==> self.index@[spec_group_key(
                data_id,
                group,
                tenant,
            )] == item_position(self.entries(), data_id, group, tenant),
    {
        let key = spec_group_key(data_id, group, tenant);
        let entries = self.entries();
        if self.index@.contains_key(key) {
            let i = self.index@[key] as int;
            let e = self.cache_data@[i]@;
            assert(e.key() == key);
            lemma_group_key_injective(e.data_id, e.group, e.tenant, data_id, group, tenant);
            assert(entries[i].is_item(data_id, group, tenant));
            lemma_item_position(entries, data_id, group, tenant, i);
        }
        if has_item(entries, data_id, group, tenant) {
            let p = item_position(entries, data_id, group, tenant);
            assert(entries[p].is_item(data_id, group, tenant));
            assert(self.cache_data@[p]@.key() == key);
        }
    }

    /// The number of cached items.
    pub fn len(&self) -> (r: usize)
        ensures
            r == self.entries().len(),
    {
        self.cache_data.len()
    }

    /// Whether the item `(data_id, group, tenant)` is cached.
    pub fn contains(&self, data_id: &str, group: &str, tenant: &str) -> (r: bool)
        requires
            self.wf(),
        ensures
            r == has_item(self.entries(), data_id@, group@, tenant@),
    {
        let key = group_key(data_id, group, tenant);
        proof {
            self.lemma_lookup(data_id@, group@, tenant@);
        }
        self.index.contains_key(key.as_str())
    }

    /// The entry of the item `(data_id, group, tenant)`, if it is cached.
    pub fn get(&self, data_id: &str, group: &str, tenant: &str) -> (r: Option<&CacheData>)
        requires
            self.wf(),
        ensures
            r.is_some() == has_item(self.entries(), data_id@, group@, tenant@),
            r.is_some() ==> r.unwrap()@ == self.entries()[item_position(
                self.entries(),
                data_id@,
                group@,
                tenant@,
            )],
    {
        let key = group_key(data_id, group, tenant);
        proof {
            self.lemma_lookup(data_id@, group@, tenant@);
        }
        match self.index.get(key.as_str()) {
            Some(i) => Some(&self.cache_data[*i]),
            None => None,
        }
    }

    /// Add listener.
    ///
    /// Registers `listener` for the item `(data_id, group, tenant)`. The
    /// entry of the item is created if there is none; an item never gets a
    /// second entry.
    pub fn add_listener(&mut self, data_id: String, group: String, tenant: String, listener: u64)
        requires
            old(self).wf(),
        ensures
            final(self).wf(),
            final(self).config() == old(self).config(),
            final(self).entries() == with_listener(
                old(self).entries(),
                data_id@,
                group@,
                tenant@,
                listener,
            ),
    {
        let key = group_key(data_id.as_str(), group.as_str(), tenant.as_str());
        proof {
            self.lemma_lookup(data_id@, group@, tenant@);
        }
        let found: Option<usize> = match self.index.get(key.as_str()) {
            Some(i) => Some(*i),
            None => None,
        };
        match found {
            Some(i) => {
                self.cache_data[i].add_listener(listener);
                proof {
                    let before = old(self).entries();
                    let grown = before[i as int].with_listener(listener);
                    assert(self.entries() =~= before.update(i as int, grown));
                    lemma_with_listener(before, data_id@, group@, tenant@, listener);
                    assert forall|j: int| 0 <= j < self.cache_data@.len() implies (
                    #[trigger] self.cache_data@[j]@.key()) == old(self).cache_data@[j]@.key() by {}
                }
            },
            None => {
                let i = self.cache_data.len();
                let mut entry = CacheData::new(data_id, group, tenant);
                entry.add_listener(listener);
                self.cache_data.push(entry);
                self.index.insert(key, i);
                proof {
                    let before = old(self).entries();
                    let made = CacheDataView::fresh(data_id@, group@, tenant@);
                    assert(self.entries() =~= before.push(made.with_listener(listener)));
                    lemma_with_listener(before, data_id@, group@, tenant@, listener);
                }
            },
        }
    }

    /// notify config change
    ///
    /// Marks the entry of the item `(data_id, group, tenant)` as stale and
    /// says whether there is one. A notification for an item that was
    /// never registered changes nothing and is no error.
    pub fn notify_config_change(
        &mut self,
        data_id: String,
        group: String,
        tenant: String,
    ) -> (known: bool)
        requires
            old(self).wf(),
        ensures
            final(self).wf(),
            final(self).config() == old(self).config(),
            known == has_item(old(self).entries(), data_id@, group@, tenant@),
            final(self).entries() == marked_stale(old(self).entries(), data_id@, group@, tenant@),
    {
        let key = group_key(data_id.as_str(), group.as_str(), tenant.as_str());
        proof {
            self.lemma_lookup(data_id@, group@, tenant@);
        }
        let found: Option<usize> = match self.index.get(key.as_str()) {
            Some(i) => Some(*i),
            None => None,
        };
        match found {
            Some(i) => {
                self.cache_data[i].mark_stale();
                proof {
                    let before = old(self).entries();
                    let marked = before[i as int].marked_stale();
                    assert(self.entries() =~= before.update(i as int, marked));
                    assert forall|j: int| 0 <= j < self.cache_data@.len() implies (
                    #[trigger] self.cache_data@[j]@.key()) == old(self).cache_data@[j]@.key() by {}
                    lemma_same_items_distinct(before, self.entries());
                }
                true
            },
            None => false,
        }
    }

    /// Writes what the server holds of the item `(data_id, group, tenant)`
    /// into its entry and orders every listener of the entry to be invoked
    /// once with the refreshed snapshot, in the order of registration. For
    /// an item without an entry nothing changes and nobody is told.
    pub fn refresh_config(
        &mut self,
        data_id: String,
        group: String,
        tenant: String,
        content: String,
        content_type: String,
        md5: String,
        encrypted_data_key: Option<String>,
        last_modified: i64,
    ) -> (r: Vec<Notification>)
        requires
            old(self).wf(),
        ensures
            final(self).wf(),
            final(self).config() == old(self).config(),
            final(self).entries() == refreshed(
                old(self).entries(),
                data_id@,
                group@,
                tenant@,
                ContentUpdate {
                    content: content@,
                    content_type: content_type@,
                    md5: md5@,
                    encrypted_data_key: text_of(encrypted_data_key),
                    last_modified,
                },
            ),
            notification_views(r@) == notifications_for(
                final(self).entries(),
                data_id@,
                group@,
                tenant@,
            ),
    {
        let key = group_key(data_id.as_str(), group.as_str(), tenant.as_str());
        proof {
            self.lemma_lookup(data_id@, group@, tenant@);
        }
        let found: Option<usize> = match self.index.get(key.as_str()) {
            Some(i) => Some(*i),
            None => None,
        };
        match found {
            Some(i) => {
                let ghost update = ContentUpdate {
                    content: content@,
                    content_type: content_type@,
                    md5: md5@,
                    encrypted_data_key: text_of(encrypted_data_key),
                    last_modified,
                };
                self.cache_data[i].refresh(
                    content,
                    content_type,
                    md5,
                    encrypted_data_key,
                    last_modified,
                );
                proof {
                    let before = old(self).entries();
                    assert(self.entries() =~= before.update(
                        i as int,
                        before[i as int].refreshed(update),
                    ));
                    assert forall|j: int| 0 <= j < self.cache_data@.len() implies (
                    #[trigger] self.cache_data@[j]@.key()) == old(self).cache_data@[j]@.key() by {}
                    lemma_same_items_distinct(before, self.entries());
                    assert(self.entries()[i as int].is_item(data_id@, group@, tenant@));
                    lemma_item_position(self.entries(), data_id@, group@, tenant@, i as int);
                }
                let snapshot = self.cache_data[i].snapshot();
                let out = self.cache_data[i].notify_listener(snapshot);
                out
            },
            None => {
                let out: Vec<Notification> = Vec::new();
                assert(notification_views(out@) =~= Seq::<NotificationView>::empty());
                out
            },
        }
    }

    /// What a listen registration says of the item `(data_id, group,
    /// tenant)`, if it is cached: the item and the digest last seen.
    pub fn listen_context(&self, data_id: &str, group: &str, tenant: &str) -> (r: Option<
        ConfigListenContext,
    >)
        requires
            self.wf(),
        ensures
            r.is_some() == has_item(self.entries(), data_id@, group@, tenant@),
            r.is_some() ==> {
                let e = self.entries()[item_position(self.entries(), data_id@, group@, tenant@)];
                &&& r.unwrap().data_id@ == data_id@
                &&& r.unwrap().group@ == group@
                &&& r.unwrap().tenant@ == tenant@
                &&& r.unwrap().md5@ == e.md5
            },
    {
        match self.get(data_id, group, tenant) {
            Some(entry) => Some(entry.listen_context()),
            None => None,
        }
    }

    /// What a listen registration says of every cached item, in the order
    /// in which the entries were created.
    pub fn listen_contexts(&self) -> (r: Vec<ConfigListenContext>)
        ensures
            is_registration_of(r@, self.entries()),
    {
        let mut out: Vec<ConfigListenContext> = Vec::new();
        let n = self.cache_data.len();
        let mut i: usize = 0;
        while i < n
            invariant
                n == self.cache_data@.len(),
                i <= n,
                out@.len() == i,
                forall|j: int|
                    0 <= j < i ==> describes(#[trigger] out@[j], self.cache_data@[j]@),
            decreases n - i,
        {
            out.push(self.cache_data[i].listen_context());
            i = i + 1;
        }
        out
    }
}

/// Whether `context` names the item of `entry` and carries its digest.
pub open spec fn describes(context: ConfigListenContext, entry: CacheDataView) -> bool {
    &&& context.data_id@ == entry.data_id
    &&& context.group@ == entry.group
    &&& context.tenant@ == entry.tenant
    &&& context.md5@ == entry.md5
}

/// Whether `contexts` registers exactly the items of `entries`, one
/// context per entry and in the same order.
pub open spec fn is_registration_of(
    contexts: Seq<ConfigListenContext>,
    entries: Seq<CacheDataView>,
) -> bool {
    &&& contexts.len() == entries.len()
    &&& forall|i: int| 0 <= i < contexts.len() ==> describes(#[trigger] contexts[i], entries[i])
}

/// A cache whose entries were changed in place, each still for its item,
/// is still without doubles.
pub proof fn lemma_same_items_distinct(before: Seq<CacheDataView>, after: Seq<CacheDataView>)
    requires
        distinct_items(before),
        before.len() == after.len(),
        forall|i: int|
            0 <= i < before.len() ==> (#[trigger] after[i]).is_item(
                before[i].data_id,
                before[i].group,
                before[i].tenant,
            ),
    ensures
        distinct_items(after),
{
    assert forall|i: int, j: int|
        0 <= i < after.len() && 0 <= j < after.len() && i != j implies !(#[trigger] after[i])
        .is_item((#[trigger] after[j]).data_id, after[j].group, after[j].tenant) by {
        assert(after[i].is_item(before[i].data_id, before[i].group, before[i].tenant));
        assert(after[j].is_item(before[j].data_id, before[j].group, before[j].tenant));
        assert(!before[i].is_item(before[j].data_id, before[j].group, before[j].tenant));
    }
}

/// The listeners registered for an item, in the order of registration;
/// none if the item has no entry.
pub open spec fn listeners_of(
    entries: Seq<CacheDataView>,
    data_id: Seq<char>,
    group: Seq<char>,
    tenant: Seq<char>,
) -> Seq<u64> {
    if has_item(entries, data_id, group, tenant) {
        entries[item_position(entries, data_id, group, tenant)].listeners
    } else {
        Seq::empty()
    }
}

/// Registering a listener leaves the cache without doubles, with an entry
/// for the item, and with every other entry as it was. The cache grows by
/// one entry if the item had none, and not at all if it had one.
pub proof fn lemma_with_listener(
    entries: Seq<CacheDataView>,
    data_id: Seq<char>,
    group: Seq<char>,
    tenant: Seq<char>,
    listener: u64,
)
    requires
        distinct_items(entries),
    ensures
        distinct_items(with_listener(entries, data_id, group, tenant, listener)),
        has_item(with_listener(entries, data_id, group, tenant, listener), data_id, group, tenant),
        listeners_of(
            with_listener(entries, data_id, group, tenant, listener),
            data_id,
            group,
            tenant,
        ) == listeners_of(entries, data_id, group, tenant).push(listener),
        with_listener(entries, data_id, group, tenant, listener).len() == entries.len() + (
        if has_item(entries, data_id, group, tenant) {
            0int
        } else {
            1int
        }),
{
    let after = with_listener(entries, data_id, group, tenant, listener);
    if has_item(entries, data_id, group, tenant) {
        let i = item_position(entries, data_id, group, tenant);
        assert(entries[i].is_item(data_id, group, tenant));
        lemma_same_items_distinct(entries, after);
        assert(after[i].is_item(data_id, group, tenant));
        lemma_item_position(after, data_id, group, tenant, i);
    } else {
        let at = entries.len() as int;
        assert forall|a: int, b: int|
            0 <= a < after.len() && 0 <= b < after.len() && a != b implies !(#[trigger] after[a])
            .is_item((#[trigger] after[b]).data_id, after[b].group, after[b].tenant) by {
            if a < at {
                assert(after[a] == entries[a]);
            }
            if b < at {
                assert(after[b] == entries[b]);
            }
        }
        assert(after[at].is_item(data_id, group, tenant));
        lemma_item_position(after, data_id, group, tenant, at);
        assert(Seq::<u64>::empty().push(listener) =~= after[at].listeners);
    }
}

/// Listening is idempotent at the level of entries: after two
/// registrations for the same item the cache holds one entry for it, and
/// that entry holds both listeners, the first before the second.
pub proof fn lemma_listen_twice(
    entries: Seq<CacheDataView>,
    data_id: Seq<char>,
    group: Seq<char>,
    tenant: Seq<char>,
    first: u64,
    second: u64,
)
    requires
        distinct_items(entries),
    ensures
        ({
            let once = with_listener(entries, data_id, group, tenant, first);
            let twice = with_listener(once, data_id, group, tenant, second);
            &&& twice.len() == once.len()
            &&& distinct_items(twice)
            &&& has_item(twice, data_id, group, tenant)
            &&& forall|i: int, j: int|
                0 <= i < twice.len() && 0 <= j < twice.len() && (#[trigger] twice[i]).is_item(
                    data_id,
                    group,
                    tenant,
                ) && (#[trigger] twice[j]).is_item(data_id, group, tenant) ==> i == j
            &&& listeners_of(twice, data_id, group, tenant) == listeners_of(
                entries,
                data_id,
                group,
                tenant,
            ).push(first).push(second)
        }),
{
    let once = with_listener(entries, data_id, group, tenant, first);
    let twice = with_listener(once, data_id, group, tenant, second);
    lemma_with_listener(entries, data_id, group, tenant, first);
    lemma_with_listener(once, data_id, group, tenant, second);
    assert forall|i: int, j: int|
        0 <= i < twice.len() && 0 <= j < twice.len() && (#[trigger] twice[i]).is_item(
            data_id,
            group,
            tenant,
        ) && (#[trigger] twice[j]).is_item(data_id, group, tenant) implies i == j by {
        if i != j {
            assert(twice[i].is_item(twice[j].data_id, twice[j].group, twice[j].tenant));
        }
    }
}

/// A change of an item that nobody listens to is told to nobody: whether
/// the item has no entry or an entry without listeners, its refresh yields
/// no notification.
pub proof fn lemma_notify_without_listeners(
    entries: Seq<CacheDataView>,
    data_id: Seq<char>,
    group: Seq<char>,
    tenant: Seq<char>,
    update: ContentUpdate,
)
    requires
        distinct_items(entries),
        listeners_of(entries, data_id, group, tenant).len() == 0,
    ensures
        notifications_for(
            refreshed(entries, data_id, group, tenant, update),
            data_id,
            group,
            tenant,
        ) == Seq::<NotificationView>::empty(),
{
    let after = refreshed(entries, data_id, group, tenant, update);
    if has_item(entries, data_id, group, tenant) {
        let i = item_position(entries, data_id, group, tenant);
        assert(entries[i].is_item(data_id, group, tenant));
        lemma_same_items_distinct(entries, after);
        assert(after[i].is_item(data_id, group, tenant));
        lemma_item_position(after, data_id, group, tenant, i);
        let told = notifications_for(after, data_id, group, tenant);
        assert(told =~= Seq::<NotificationView>::empty());
    }
}

/// A change of an item is told to each of its listeners exactly once, in
/// the order of registration, and each receives the refreshed content.
pub proof fn lemma_notify_all_listeners(
    entries: Seq<CacheDataView>,
    data_id: Seq<char>,
    group: Seq<char>,
    tenant: Seq<char>,
    update: ContentUpdate,
)
    requires
        distinct_items(entries),
        has_item(entries, data_id, group, tenant),
    ensures
        ({
            let listeners = listeners_of(entries, data_id, group, tenant);
            let told = notifications_for(
                refreshed(entries, data_id, group, tenant, update),
                data_id,
                group,
                tenant,
            );
            &&& told.len() == listeners.len()
            &&& forall|i: int|
                0 <= i < told.len() ==> {
                    &&& (#[trigger] told[i]).listener == listeners[i]
                    &&& told[i].response == (ConfigResponseView {
                        namespace: tenant,
                        data_id,
                        group,
                        content: update.content,
                        content_type: update.content_type,
                    })
                }
        }),
{
    let after = refreshed(entries, data_id, group, tenant, update);
    let i = item_position(entries, data_id, group, tenant);
    assert(entries[i].is_item(data_id, group, tenant));
    lemma_same_items_distinct(entries, after);
    assert(after[i].is_item(data_id, group, tenant));
    lemma_item_position(after, data_id, group, tenant, i);
}

/// Marking an item stale leaves the cache without doubles.
pub proof fn lemma_marked_stale(
    entries: Seq<CacheDataView>,
    data_id: Seq<char>,
    group: Seq<char>,
    tenant: Seq<char>,
)
    requires
        distinct_items(entries),
    ensures
        distinct_items(marked_stale(entries, data_id, group, tenant)),
        marked_stale(entries, data_id, group, tenant).len() == entries.len(),
{
    if has_item(entries, data_id, group, tenant) {
        let i = item_position(entries, data_id, group, tenant);
        assert(entries[i].is_item(data_id, group, tenant));
        lemma_same_items_distinct(entries, marked_stale(entries, data_id, group, tenant));
    }
}

/// Refreshing an item leaves the cache without doubles.
pub proof fn lemma_refreshed(
    entries: Seq<CacheDataView>,
    data_id: Seq<char>,
    group: Seq<char>,
    tenant: Seq<char>,
    update: ContentUpdate,
)
    requires
        distinct_items(entries),
    ensures
        distinct_items(refreshed(entries, data_id, group, tenant, update)),
        refreshed(entries, data_id, group, tenant, update).len() == entries.len(),
{
    if has_item(entries, data_id, group, tenant) {
        let i = item_position(entries, data_id, group, tenant);
        assert(entries[i].is_item(data_id, group, tenant));
        lemma_same_items_distinct(entries, refreshed(entries, data_id, group, tenant, update));
    }
}

} // verus!
