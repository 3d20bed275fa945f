//! Which windows are part of the taskbar.
use vstd::prelude::*;

use crate::utf16::{decode_wide, text_of};

verus! {

/// Whether windows of this class are part of the taskbar or of the tray.
pub open spec fn is_taskbar_name(class_name: Seq<char>) -> bool {
    ||| class_name == "Shell_TrayWnd"@
    ||| class_name == "Shell_SecondaryTrayWnd"@
    ||| class_name == "NotifyIconOverflowWindow"@
    ||| class_name == "XamlExplorerHostIslandWindow"@
}

/// Whether a window whose class name has these code units is part of the taskbar or of the
/// tray.
pub fn is_taskbar_class(class_name: &[u16]) -> (taskbar: bool)
    ensures
        taskbar == is_taskbar_name(text_of(class_name@)),
{
    let name = decode_wide(class_name);
    name == "Shell_TrayWnd".to_owned() || name == "Shell_SecondaryTrayWnd".to_owned() || name
        == "NotifyIconOverflowWindow".to_owned() || name
        == "XamlExplorerHostIslandWindow".to_owned()
}

/// The classes of the taskbar and the tray are these four texts and no others.
pub proof fn law_taskbar_classes(class_name: Seq<char>)
    ensures
        is_taskbar_name(class_name) <==> seq![
            "Shell_TrayWnd"@,
            "Shell_SecondaryTrayWnd"@,
            "NotifyIconOverflowWindow"@,
            "XamlExplorerHostIslandWindow"@,
        ].contains(class_name),
{
    let classes = seq![
        "Shell_TrayWnd"@,
        "Shell_SecondaryTrayWnd"@,
        "NotifyIconOverflowWindow"@,
        "XamlExplorerHostIslandWindow"@,
    ];
    assert(classes[0] == "Shell_TrayWnd"@);
    assert(classes[1] == "Shell_SecondaryTrayWnd"@);
    assert(classes[2] == "NotifyIconOverflowWindow"@);
    assert(classes[3] == "XamlExplorerHostIslandWindow"@);
}

/// A class of the taskbar or the tray has a name of 13, 22, 24 or 28 characters, each a letter of
/// ASCII or an underscore.
pub proof fn law_taskbar_class_is_letters(class_name: Seq<char>)
    requires
        is_taskbar_name(class_name),
    ensures
        class_name.len() == 13 || class_name.len() == 22 || class_name.len() == 24
            || class_name.len() == 28,
        forall|i: int|
            0 <= i < class_name.len() ==> {
                ||| 'A' <= #[trigger] class_name[i] <= 'Z'
                ||| 'a' <= class_name[i] <= 'z'
                ||| class_name[i] == '_'
            },
{
    law_taskbar_classes(class_name);
    reveal_strlit("Shell_TrayWnd");
    reveal_strlit("Shell_SecondaryTrayWnd");
    reveal_strlit("NotifyIconOverflowWindow");
    reveal_strlit("XamlExplorerHostIslandWindow");
}

} // verus!
