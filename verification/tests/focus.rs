use airev::app::PanelFocus;

#[test]
fn focus_cycles_forward_and_back() {
    assert_eq!(PanelFocus::FileList.next(), PanelFocus::Diff);
    assert_eq!(PanelFocus::Diff.next(), PanelFocus::Comments);
    assert_eq!(PanelFocus::Comments.next(), PanelFocus::FileList);
    assert_eq!(PanelFocus::FileList.prev(), PanelFocus::Comments);
    assert_eq!(PanelFocus::Diff.prev(), PanelFocus::FileList);
    assert_eq!(PanelFocus::Comments.prev(), PanelFocus::Diff);
}
