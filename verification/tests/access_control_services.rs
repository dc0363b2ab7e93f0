use pcics::extended_capabilities::access_control_services::{
    AccessControlServices, EgressControlVectors,
};

#[test]
fn egress_control_vectors() {
    let data = [0x00, 0x0F, 0xAA, 0xFF, 0x55, 0x00, 0x00, 0x00];
    let mut ecv = EgressControlVectors::new(&data, 35);
    let result = ecv.entries();
    let sample = [
        0, 0, 0, 0, 0, 0, 0, 0, 1, 1, 1, 1, 0, 0, 0, 0, 0, 1, 0, 1, 0, 1, 0, 1, 1, 1, 1, 1, 1,
        1, 1, 1, 1, 0, 1, 0, 1, 0, 1, 0, 0, 0, 0, 0, 0, 0, 0, 0, 0, 0, 0, 0, 0, 0, 0, 0, 0, 0,
        0, 0, 0, 0, 0, 0,
    ]
    .iter()
    .take(35)
    .map(|&v| v != 0)
    .collect::<Vec<_>>();
    println!("{:?}", &sample);
    println!("{:?}", &result);
    assert_eq!(sample, result);
}

#[test]
fn egress_control_vectors_of_the_capability() {
    // ACS Capability with an Egress Control Vector Size of 35, ACS Control, then the vector
    let data = [
        0x20, 35, 0x00, 0x00, 0x00, 0x0F, 0xAA, 0xFF, 0x55, 0x00, 0x00, 0x00,
    ];
    let acs = AccessControlServices::try_from(data.as_slice()).unwrap();
    let result = acs.egress_control_vectors().entries();
    let mut sample = EgressControlVectors::new(&data[4..], 35);
    assert_eq!(35, result.len());
    assert_eq!(sample.entries(), result);
    assert!(result[8] && result[32] && !result[33] && result[34]);
    // A vector of fewer than 32 bits takes one double word
    let mut short = data;
    short[1] = 5;
    let acs = AccessControlServices::try_from(&short[..8]).unwrap();
    assert_eq!(
        vec![false, false, false, false, false],
        acs.egress_control_vectors().entries()
    );
    // Where the data lacks the double words of the vector, no bit is read
    let acs = AccessControlServices::try_from(&data[..8]).unwrap();
    assert_eq!(Vec::<bool>::new(), acs.egress_control_vectors().entries());
}
