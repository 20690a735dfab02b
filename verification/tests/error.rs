use rldp::error::RldpError;

#[test]
fn errors_have_a_line_for_the_log() {
    assert_eq!(RldpError::UnsupportedFecType.message(), "Unsupported FEC type in RLDP packet");
    assert_eq!(RldpError::TotalSizeMismatch.message(), "Incorrect total size in RLDP packet");
    assert_eq!(RldpError::ParamsMismatch.message(), "Incorrect parameters in RLDP packet");
    assert_eq!(RldpError::TooBig.message(), "Too big size for RLDP transfer");
    assert_eq!(RldpError::EncoderNotReady.message(), "Encoder is not ready");
    assert_eq!(RldpError::UnknownQueryId.message(), "Unknown query ID in RLDP answer");
    assert_eq!(RldpError::PartMismatch.message(), "INTERNAL ERROR: part # mismatch");
}
