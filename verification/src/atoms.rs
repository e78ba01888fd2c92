//! The X11 atoms that the drag source and the drop router speak with.
//!
//! Atoms are interned by the display server. The names are listed here in the
//! order in which the interned values are handed back.

use vstd::prelude::*;

verus! {

/// Interned atoms of the drag source.
#[derive(Clone, Copy, Debug, PartialEq, Eq, Structural)]
pub struct XdndAtoms {
    pub xdnd_selection: u32,
    pub xdnd_enter: u32,
    pub xdnd_leave: u32,
    pub xdnd_position: u32,
    pub xdnd_status: u32,
    pub xdnd_drop: u32,
    pub xdnd_finished: u32,
    pub xdnd_aware: u32,
    pub xdnd_proxy: u32,
    pub xdnd_type_list: u32,
    pub xdnd_action_copy: u32,
    pub net_active_window: u32,
    pub text_uri_list: u32,
    pub text_uri_list_utf8: u32,
    pub text_x_uri: u32,
    pub application_vnd_portal_filetransfer: u32,
    pub application_vnd_portal_files: u32,
    pub application_x_kde4_urilist: u32,
    pub x_special_gnome_copied_files: u32,
    pub text_plain: u32,
    pub text_plain_utf8: u32,
    pub targets: u32,
    pub timestamp_property: u32,
    pub utf8_string: u32,
    pub string: u32,
    pub wm_class: u32,
    pub wm_name: u32,
    pub net_wm_name: u32,
}

/// The names of the drag source atoms.
pub open spec fn xdnd_names() -> Seq<Seq<char>> {
    seq![
        "XdndSelection"@,
        "XdndEnter"@,
        "XdndLeave"@,
        "XdndPosition"@,
        "XdndStatus"@,
        "XdndDrop"@,
        "XdndFinished"@,
        "XdndAware"@,
        "XdndProxy"@,
        "XdndTypeList"@,
        "XdndActionCopy"@,
        "_NET_ACTIVE_WINDOW"@,
        "text/uri-list"@,
        "text/uri-list;charset=utf-8"@,
        "text/x-uri"@,
        "application/vnd.portal.filetransfer"@,
        "application/vnd.portal.files"@,
        "application/x-kde4-urilist"@,
        "x-special/gnome-copied-files"@,
        "text/plain"@,
        "text/plain;charset=utf-8"@,
        "TARGETS"@,
        "DROP_RECORDER_XDND_TIME"@,
        "UTF8_STRING"@,
        "STRING"@,
        "WM_CLASS"@,
        "WM_NAME"@,
        "_NET_WM_NAME"@,
    ]
}

/// The texts of a list of names.
pub open spec fn name_texts(names: Seq<&'static str>) -> Seq<Seq<char>> {
    Seq::new(names.len(), |i: int| names[i]@)
}

/// The names to intern for [`XdndAtoms`], in order.
pub fn xdnd_atom_names() -> (names: Vec<&'static str>)
    ensures
        name_texts(names@) == xdnd_names(),
{
    let names: Vec<&'static str> = vec![
        "XdndSelection",
        "XdndEnter",
        "XdndLeave",
        "XdndPosition",
        "XdndStatus",
        "XdndDrop",
        "XdndFinished",
        "XdndAware",
        "XdndProxy",
        "XdndTypeList",
        "XdndActionCopy",
        "_NET_ACTIVE_WINDOW",
        "text/uri-list",
        "text/uri-list;charset=utf-8",
        "text/x-uri",
        "application/vnd.portal.filetransfer",
        "application/vnd.portal.files",
        "application/x-kde4-urilist",
        "x-special/gnome-copied-files",
        "text/plain",
        "text/plain;charset=utf-8",
        "TARGETS",
        "DROP_RECORDER_XDND_TIME",
        "UTF8_STRING",
        "STRING",
        "WM_CLASS",
        "WM_NAME",
        "_NET_WM_NAME",
    ];
    assert(name_texts(names@) =~= xdnd_names());
    names
}

/// The MIME atoms that a drag source can offer.
#[derive(Clone, Copy, Debug, PartialEq, Eq, Structural)]
pub struct MimeTargets {
    pub portal_filetransfer: u32,
    pub portal_files: u32,
    pub text_uri_list: u32,
    pub text_uri_list_utf8: u32,
    pub text_x_uri: u32,
    pub kde_uri_list: u32,
    pub gnome_copied_files: u32,
    pub text_plain: u32,
    pub text_plain_utf8: u32,
    pub utf8_string: u32,
    pub string: u32,
}

impl MimeTargets {
    /// Whether an atom asks for the key of a portal file transfer.
    pub open spec fn portal(self, target: u32) -> bool {
        target == self.portal_filetransfer || target == self.portal_files
    }

    /// Whether an atom asks for the key of a portal file transfer.
    #[must_use]
    pub fn is_portal_target(&self, target: u32) -> (portal: bool)
        ensures
            portal == self.portal(target),
    {
        target == self.portal_filetransfer || target == self.portal_files
    }
}

impl XdndAtoms {
    /// The atoms in the order of their names.
    pub open spec fn in_order(self) -> Seq<u32> {
        seq![
            self.xdnd_selection,
            self.xdnd_enter,
            self.xdnd_leave,
            self.xdnd_position,
            self.xdnd_status,
            self.xdnd_drop,
            self.xdnd_finished,
            self.xdnd_aware,
            self.xdnd_proxy,
            self.xdnd_type_list,
            self.xdnd_action_copy,
            self.net_active_window,
            self.text_uri_list,
            self.text_uri_list_utf8,
            self.text_x_uri,
            self.application_vnd_portal_filetransfer,
            self.application_vnd_portal_files,
            self.application_x_kde4_urilist,
            self.x_special_gnome_copied_files,
            self.text_plain,
            self.text_plain_utf8,
            self.targets,
            self.timestamp_property,
            self.utf8_string,
            self.string,
            self.wm_class,
            self.wm_name,
            self.net_wm_name,
        ]
    }

    /// Take the interned values of [`xdnd_atom_names`], one for each name.
    pub fn new(interned: &Vec<u32>) -> (atoms: Option<XdndAtoms>)
        ensures
            atoms is Some <==> interned@.len() == xdnd_names().len(),
            atoms matches Some(found) ==> found.in_order() == interned@,
    {
        if interned.len() != 28 {
            return None;
        }
        let atoms = XdndAtoms {
            xdnd_selection: interned[0],
            xdnd_enter: interned[1],
            xdnd_leave: interned[2],
            xdnd_position: interned[3],
            xdnd_status: interned[4],
            xdnd_drop: interned[5],
            xdnd_finished: interned[6],
            xdnd_aware: interned[7],
            xdnd_proxy: interned[8],
            xdnd_type_list: interned[9],
            xdnd_action_copy: interned[10],
            net_active_window: interned[11],
            text_uri_list: interned[12],
            text_uri_list_utf8: interned[13],
            text_x_uri: interned[14],
            application_vnd_portal_filetransfer: interned[15],
            application_vnd_portal_files: interned[16],
            application_x_kde4_urilist: interned[17],
            x_special_gnome_copied_files: interned[18],
            text_plain: interned[19],
            text_plain_utf8: interned[20],
            targets: interned[21],
            timestamp_property: interned[22],
            utf8_string: interned[23],
            string: interned[24],
            wm_class: interned[25],
            wm_name: interned[26],
            net_wm_name: interned[27],
        };
        assert(atoms.in_order() =~= interned@);
        Some(atoms)
    }

    /// The MIME atoms among these.
    pub open spec fn mimes(self) -> MimeTargets {
        MimeTargets {
            portal_filetransfer: self.application_vnd_portal_filetransfer,
            portal_files: self.application_vnd_portal_files,
            text_uri_list: self.text_uri_list,
            text_uri_list_utf8: self.text_uri_list_utf8,
            text_x_uri: self.text_x_uri,
            kde_uri_list: self.application_x_kde4_urilist,
            gnome_copied_files: self.x_special_gnome_copied_files,
            text_plain: self.text_plain,
            text_plain_utf8: self.text_plain_utf8,
            utf8_string: self.utf8_string,
            string: self.string,
        }
    }

    /// The MIME atoms among these.
    #[must_use]
    pub fn mime_targets(&self) -> (mimes: MimeTargets)
        ensures
            mimes == self.mimes(),
    {
        MimeTargets {
            portal_filetransfer: self.application_vnd_portal_filetransfer,
            portal_files: self.application_vnd_portal_files,
            text_uri_list: self.text_uri_list,
            text_uri_list_utf8: self.text_uri_list_utf8,
            text_x_uri: self.text_x_uri,
            kde_uri_list: self.application_x_kde4_urilist,
            gnome_copied_files: self.x_special_gnome_copied_files,
            text_plain: self.text_plain,
            text_plain_utf8: self.text_plain_utf8,
            utf8_string: self.utf8_string,
            string: self.string,
        }
    }
}

/// Interned atoms of the drop router.
#[derive(Clone, Copy, Debug, PartialEq, Eq, Structural)]
pub struct RouterAtoms {
    pub xdnd_aware: u32,
    pub xdnd_proxy: u32,
    pub xdnd_enter: u32,
    pub xdnd_position: u32,
    pub xdnd_leave: u32,
    pub xdnd_drop: u32,
    pub marker: u32,
    pub wm_class: u32,
    pub wm_name: u32,
}

/// The names of the drop router atoms.
pub open spec fn router_names() -> Seq<Seq<char>> {
    seq![
        "XdndAware"@,
        "XdndProxy"@,
        "XdndEnter"@,
        "XdndPosition"@,
        "XdndLeave"@,
        "XdndDrop"@,
        "AUDIO_PLUGIN_DND_ROUTER"@,
        "WM_CLASS"@,
        "WM_NAME"@,
    ]
}

/// The names to intern for [`RouterAtoms`], in order.
pub fn router_atom_names() -> (names: Vec<&'static str>)
    ensures
        name_texts(names@) == router_names(),
{
    let names: Vec<&'static str> = vec![
        "XdndAware",
        "XdndProxy",
        "XdndEnter",
        "XdndPosition",
        "XdndLeave",
        "XdndDrop",
        "AUDIO_PLUGIN_DND_ROUTER",
        "WM_CLASS",
        "WM_NAME",
    ];
    assert(name_texts(names@) =~= router_names());
    names
}

impl RouterAtoms {
    /// The atoms in the order of their names.
    pub open spec fn in_order(self) -> Seq<u32> {
        seq![
            self.xdnd_aware,
            self.xdnd_proxy,
            self.xdnd_enter,
            self.xdnd_position,
            self.xdnd_leave,
            self.xdnd_drop,
            self.marker,
            self.wm_class,
            self.wm_name,
        ]
    }

    /// Take the interned values of [`router_atom_names`], one for each name.
    pub fn new(interned: &Vec<u32>) -> (atoms: Option<RouterAtoms>)
        ensures
            atoms is Some <==> interned@.len() == router_names().len(),
            atoms matches Some(found) ==> found.in_order() == interned@,
    {
        if interned.len() != 9 {
            return None;
        }
        let atoms = RouterAtoms {
            xdnd_aware: interned[0],
            xdnd_proxy: interned[1],
            xdnd_enter: interned[2],
            xdnd_position: interned[3],
            xdnd_leave: interned[4],
            xdnd_drop: interned[5],
            marker: interned[6],
            wm_class: interned[7],
            wm_name: interned[8],
        };
        assert(atoms.in_order() =~= interned@);
        Some(atoms)
    }
}

/// Each atom of a drag source is the one that is interned under its own name.
pub proof fn drag_atoms_have_their_names(atoms: XdndAtoms)
    ensures
        xdnd_names().len() == 28 && atoms.in_order().len() == 28,
        xdnd_names()[0] == "XdndSelection"@ && atoms.in_order()[0] == atoms.xdnd_selection,
        xdnd_names()[1] == "XdndEnter"@ && atoms.in_order()[1] == atoms.xdnd_enter,
        xdnd_names()[2] == "XdndLeave"@ && atoms.in_order()[2] == atoms.xdnd_leave,
        xdnd_names()[3] == "XdndPosition"@ && atoms.in_order()[3] == atoms.xdnd_position,
        xdnd_names()[4] == "XdndStatus"@ && atoms.in_order()[4] == atoms.xdnd_status,
        xdnd_names()[5] == "XdndDrop"@ && atoms.in_order()[5] == atoms.xdnd_drop,
        xdnd_names()[6] == "XdndFinished"@ && atoms.in_order()[6] == atoms.xdnd_finished,
        xdnd_names()[7] == "XdndAware"@ && atoms.in_order()[7] == atoms.xdnd_aware,
        xdnd_names()[8] == "XdndProxy"@ && atoms.in_order()[8] == atoms.xdnd_proxy,
        xdnd_names()[9] == "XdndTypeList"@ && atoms.in_order()[9] == atoms.xdnd_type_list,
        xdnd_names()[10] == "XdndActionCopy"@ && atoms.in_order()[10] == atoms.xdnd_action_copy,
        xdnd_names()[11] == "_NET_ACTIVE_WINDOW"@ && atoms.in_order()[11] == atoms.net_active_window,
        xdnd_names()[12] == "text/uri-list"@ && atoms.in_order()[12] == atoms.text_uri_list,
        xdnd_names()[13] == "text/uri-list;charset=utf-8"@ && atoms.in_order()[13] == atoms.text_uri_list_utf8,
        xdnd_names()[14] == "text/x-uri"@ && atoms.in_order()[14] == atoms.text_x_uri,
        xdnd_names()[15] == "application/vnd.portal.filetransfer"@ && atoms.in_order()[15] == atoms.application_vnd_portal_filetransfer,
        xdnd_names()[16] == "application/vnd.portal.files"@ && atoms.in_order()[16] == atoms.application_vnd_portal_files,
        xdnd_names()[17] == "application/x-kde4-urilist"@ && atoms.in_order()[17] == atoms.application_x_kde4_urilist,
        xdnd_names()[18] == "x-special/gnome-copied-files"@ && atoms.in_order()[18] == atoms.x_special_gnome_copied_files,
        xdnd_names()[19] == "text/plain"@ && atoms.in_order()[19] == atoms.text_plain,
        xdnd_names()[20] == "text/plain;charset=utf-8"@ && atoms.in_order()[20] == atoms.text_plain_utf8,
        xdnd_names()[21] == "TARGETS"@ && atoms.in_order()[21] == atoms.targets,
        xdnd_names()[22] == "DROP_RECORDER_XDND_TIME"@ && atoms.in_order()[22] == atoms.timestamp_property,
        xdnd_names()[23] == "UTF8_STRING"@ && atoms.in_order()[23] == atoms.utf8_string,
        xdnd_names()[24] == "STRING"@ && atoms.in_order()[24] == atoms.string,
        xdnd_names()[25] == "WM_CLASS"@ && atoms.in_order()[25] == atoms.wm_class,
        xdnd_names()[26] == "WM_NAME"@ && atoms.in_order()[26] == atoms.wm_name,
        xdnd_names()[27] == "_NET_WM_NAME"@ && atoms.in_order()[27] == atoms.net_wm_name,
{
}

/// Each MIME atom is the one that is interned under that MIME type.
pub proof fn mime_atoms_have_their_names(atoms: XdndAtoms)
    ensures
        xdnd_names()[15] == "application/vnd.portal.filetransfer"@ && atoms.in_order()[15] == atoms.mimes().portal_filetransfer,
        xdnd_names()[16] == "application/vnd.portal.files"@ && atoms.in_order()[16] == atoms.mimes().portal_files,
        xdnd_names()[12] == "text/uri-list"@ && atoms.in_order()[12] == atoms.mimes().text_uri_list,
        xdnd_names()[13] == "text/uri-list;charset=utf-8"@ && atoms.in_order()[13] == atoms.mimes().text_uri_list_utf8,
        xdnd_names()[14] == "text/x-uri"@ && atoms.in_order()[14] == atoms.mimes().text_x_uri,
        xdnd_names()[17] == "application/x-kde4-urilist"@ && atoms.in_order()[17] == atoms.mimes().kde_uri_list,
        xdnd_names()[18] == "x-special/gnome-copied-files"@ && atoms.in_order()[18] == atoms.mimes().gnome_copied_files,
        xdnd_names()[19] == "text/plain"@ && atoms.in_order()[19] == atoms.mimes().text_plain,
        xdnd_names()[20] == "text/plain;charset=utf-8"@ && atoms.in_order()[20] == atoms.mimes().text_plain_utf8,
        xdnd_names()[23] == "UTF8_STRING"@ && atoms.in_order()[23] == atoms.mimes().utf8_string,
        xdnd_names()[24] == "STRING"@ && atoms.in_order()[24] == atoms.mimes().string,
{
}

/// Each atom of a router is the one that is interned under its own name.
pub proof fn router_atoms_have_their_names(atoms: RouterAtoms)
    ensures
        router_names().len() == 9 && atoms.in_order().len() == 9,
        router_names()[0] == "XdndAware"@ && atoms.in_order()[0] == atoms.xdnd_aware,
        router_names()[1] == "XdndProxy"@ && atoms.in_order()[1] == atoms.xdnd_proxy,
        router_names()[2] == "XdndEnter"@ && atoms.in_order()[2] == atoms.xdnd_enter,
        router_names()[3] == "XdndPosition"@ && atoms.in_order()[3] == atoms.xdnd_position,
        router_names()[4] == "XdndLeave"@ && atoms.in_order()[4] == atoms.xdnd_leave,
        router_names()[5] == "XdndDrop"@ && atoms.in_order()[5] == atoms.xdnd_drop,
        router_names()[6] == "AUDIO_PLUGIN_DND_ROUTER"@ && atoms.in_order()[6] == atoms.marker,
        router_names()[7] == "WM_CLASS"@ && atoms.in_order()[7] == atoms.wm_class,
        router_names()[8] == "WM_NAME"@ && atoms.in_order()[8] == atoms.wm_name,
{
}

/// The atoms of a portal file transfer are two, and only they ask for its key.
pub proof fn portal_atoms_are_two(mimes: MimeTargets, target: u32)
    ensures
        mimes.portal(mimes.portal_filetransfer),
        mimes.portal(mimes.portal_files),
        target != mimes.portal_filetransfer && target != mimes.portal_files ==> !mimes.portal(target),
{
}

} // verus!
