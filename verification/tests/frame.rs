use sentry_types::frame::{
    EmbeddedSources, FileLocation, Frame, InstructionInfo, LogEntry, Stacktrace, TemplateInfo,
};

#[test]
fn frame_defaults_are_empty() {
    let f = Frame::default();
    assert!(f.function.is_none() && f.symbol.is_none() && f.module.is_none());
    assert!(f.package.is_none() && f.in_app.is_none() && f.vars.is_empty());
    assert_eq!(f.location, FileLocation::default());
    assert_eq!(f.source, EmbeddedSources::default());
    assert_eq!(f.instruction_info, InstructionInfo::default());
    let l = FileLocation::default();
    assert!(l.filename.is_none() && l.abs_path.is_none() && l.line.is_none() && l.column.is_none());
    let i = InstructionInfo::default();
    assert!(i.image_addr.is_none() && i.instruction_addr.is_none() && i.symbol_addr.is_none());
    let src = EmbeddedSources::default();
    assert!(src.pre_lines.is_empty() && src.current_line.is_none() && src.post_lines.is_empty());
    let t = TemplateInfo::default();
    assert_eq!(t.location, l);
    let st = Stacktrace::default();
    assert!(st.frames.is_empty() && st.frames_omitted.is_none());
    let le = LogEntry::default();
    assert_eq!(le.message, "");
    assert!(le.params.is_empty());
}
