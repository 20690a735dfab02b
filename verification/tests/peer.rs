use rldp::peer::RldpPeer;

#[test]
fn three_queries_run_and_the_others_wait() {
    let mut peer = RldpPeer::new();
    let waits: Vec<bool> = (0..5).map(|_| peer.enter()).collect();
    assert_eq!(waits, vec![false, false, false, true, true]);
    assert_eq!(peer.queries(), 5);
    // Each query that goes lets one waiting query run, as long as one waits.
    let releases: Vec<bool> = (0..5).map(|_| peer.leave()).collect();
    assert_eq!(releases, vec![true, true, false, false, false]);
    assert_eq!(peer.queries(), 0);
}

#[test]
fn never_more_than_three_in_flight() {
    let mut peer = RldpPeer::new();
    let mut in_flight = 0;
    let mut waiting = 0;
    let script = [true, true, true, true, false, true, true, false, false, false, true, false, false, false];
    for comes in script {
        if comes {
            if peer.enter() {
                waiting += 1;
            } else {
                in_flight += 1;
            }
        } else {
            in_flight -= 1;
            if peer.leave() {
                waiting -= 1;
                in_flight += 1;
            }
        }
        assert!(in_flight <= 3);
        assert!(waiting == 0 || in_flight == 3);
        assert_eq!(peer.queries(), in_flight + waiting);
    }
    assert_eq!(peer.queries(), 0);
}
