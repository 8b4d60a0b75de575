use maskedit::PanelMaskEditAction;

fn describe(action: Option<PanelMaskEditAction>) -> &'static str {
    match action {
        None => "none",
        Some(PanelMaskEditAction::Never(never)) => match never {},
    }
}

#[test]
fn no_action_exists() {
    assert_eq!(describe(None), "none");
}
