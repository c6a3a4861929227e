//! The application's resource data: presets, profiles, fetched log groups,
//! the search box, sessions, and the optional diagnostic panel.
use vstd::prelude::*;

use crate::aws::cwlogs::group::cursor::GroupCursor;
use crate::aws::cwlogs::group::store::CwlGroupStore;
use crate::aws::profile::ProfileStore;
use crate::event::key::Key;
use crate::preset::Preset;
use crate::preset::PresetName;
use crate::preset::PresetStore;
use crate::session::Session;
use crate::session::SessionSet;
use crate::ui::widget::debug::DebugData;
use crate::ui::widget::search::SearchData;

verus! {

/// The application's data.
pub struct AppData {
    pub presets: PresetStore,
    pub profiles: ProfileStore,
    pub groups: CwlGroupStore,
    pub search: SearchData,
    pub sessions: SessionSet,
    pub debug: Option<DebugData>,
    pub groups_cursor: Option<GroupCursor>,
}

impl AppData {
    /// The data invariant: every component holds its own.
    pub open spec fn wf(&self) -> bool {
        &&& self.presets.wf()
        &&& self.profiles.wf()
        &&& self.groups.wf()
        &&& self.search.wf()
        &&& self.spec_sessions().wf()
    }

    /// Everything but the diagnostic panel agrees.
    pub open spec fn same_except_debug(self, b: AppData) -> bool {
        &&& self.presets == b.presets
        &&& self.profiles == b.profiles
        &&& self.groups == b.groups
        &&& self.search == b.search
        &&& self.spec_sessions() == b.spec_sessions()
        &&& self.spec_groups_cursor() == b.spec_groups_cursor()
    }

    /// The four resource stores agree.
    pub open spec fn same_stores(self, b: AppData) -> bool {
        &&& self.presets == b.presets
        &&& self.profiles == b.profiles
        &&& self.groups == b.groups
        &&& self.search == b.search
    }

    /// The open sessions.
    pub open spec fn spec_sessions(&self) -> SessionSet {
        self.sessions
    }

    /// The diagnostic panel, when one is attached.
    pub open spec fn spec_debug(&self) -> Option<DebugData> {
        self.debug
    }

    /// The cursor of the latest group listing, when one was issued.
    pub open spec fn spec_groups_cursor(&self) -> Option<GroupCursor> {
        self.groups_cursor
    }

    pub fn new(
        presets: PresetStore,
        profiles: ProfileStore,
        groups: CwlGroupStore,
        search: SearchData,
        sessions: SessionSet,
        debug: Option<DebugData>,
    ) -> (r: AppData)
        requires
            presets.wf(),
            profiles.wf(),
            groups.wf(),
            search.wf(),
            sessions.wf(),
        ensures
            r.wf(),
            r.presets == presets,
            r.profiles == profiles,
            r.groups == groups,
            r.search == search,
            r.spec_sessions() == sessions,
            r.spec_debug() == debug,
            r.spec_groups_cursor() is None,
    {
        AppData { presets, profiles, groups, search, sessions, debug, groups_cursor: None }
    }

    /// The diagnostic panel, when one is attached.
    pub fn debug(&self) -> (r: Option<&DebugData>)
        ensures
            match r {
                Some(d) => self.spec_debug() == Some(*d),
                None => self.spec_debug() is None,
            },
    {
        self.debug.as_ref()
    }

    /// Records a key on the diagnostic panel, when one is attached.
    pub fn debug_key(&mut self, key: Key)
        ensures
            final(self).presets == old(self).presets,
            final(self).profiles == old(self).profiles,
            final(self).groups == old(self).groups,
            final(self).search == old(self).search,
            final(self).spec_sessions() == old(self).spec_sessions(),
            final(self).spec_groups_cursor() == old(self).spec_groups_cursor(),
            old(self).spec_debug() is None ==> final(self).spec_debug() == old(self).spec_debug(),
            old(self).spec_debug() is Some ==> (final(self).spec_debug() matches Some(d)
                && d.spec_logs() == old(self).spec_debug()->0.spec_logs() && d.spec_max_size()
                == old(self).spec_debug()->0.spec_max_size()),
    {
        if let Some(debug) = self.debug.as_mut() {
            debug.append_key(key);
        }
    }

    /// Records a message on the diagnostic panel, when one is attached.
    pub fn debug_log(&mut self, msg: String)
        ensures
            final(self).presets == old(self).presets,
            final(self).profiles == old(self).profiles,
            final(self).groups == old(self).groups,
            final(self).search == old(self).search,
            final(self).spec_sessions() == old(self).spec_sessions(),
            final(self).spec_groups_cursor() == old(self).spec_groups_cursor(),
            old(self).spec_debug() is None ==> final(self).spec_debug() == old(self).spec_debug(),
            old(self).spec_debug() is Some ==> (final(self).spec_debug() matches Some(d)
                && d.spec_keys() == old(self).spec_debug()->0.spec_keys() && d.spec_key_no() == old(
                self,
            ).spec_debug()->0.spec_key_no() && d.spec_max_size() == old(
                self,
            ).spec_debug()->0.spec_max_size()),
    {
        if let Some(debug) = self.debug.as_mut() {
            debug.append_log(msg);
        }
    }

    /// Remembers the cursor of the latest group listing.
    pub fn set_groups_cursor(&mut self, cursor: GroupCursor)
        ensures
            final(self).presets == old(self).presets,
            final(self).profiles == old(self).profiles,
            final(self).groups == old(self).groups,
            final(self).search == old(self).search,
            final(self).spec_sessions() == old(self).spec_sessions(),
            final(self).spec_debug() == old(self).spec_debug(),
            final(self).spec_groups_cursor() == Some(cursor),
    {
        self.groups_cursor = Some(cursor);
    }

    /// Opens a session.
    pub fn create_session(&mut self, session: Session)
        requires
            old(self).spec_sessions().wf(),
            old(self).spec_sessions().spec_next_id() < u64::MAX,
        ensures
            final(self).presets == old(self).presets,
            final(self).profiles == old(self).profiles,
            final(self).groups == old(self).groups,
            final(self).search == old(self).search,
            final(self).spec_debug() == old(self).spec_debug(),
            final(self).spec_groups_cursor() == old(self).spec_groups_cursor(),
            final(self).spec_sessions().wf(),
            final(self).spec_sessions().ids() == old(self).spec_sessions().ids().push(
                old(self).spec_sessions().spec_next_id(),
            ),
    {
        self.sessions.insert(session);
    }
}

/// The presets every fresh application starts with.
pub fn default_presets() -> (r: PresetStore)
    ensures
        r.wf(),
        r.spec_query() is None,
        r.spec_label() == "Presets"@,
{
    let mut presets = PresetStore::default();
    presets.insert(Preset::new(PresetName::from("project-prd"), None));
    presets.insert(Preset::new(PresetName::from("project-stg"), None));
    presets.insert(Preset::new(PresetName::from("project-dev"), None));
    presets.insert(Preset::new(PresetName::from("lambda"), None));
    presets.insert(Preset::new(PresetName::from("glue"), None));
    presets
}

} // verus!
