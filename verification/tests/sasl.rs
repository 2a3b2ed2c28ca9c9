use hmac::{Hmac, Mac, NewMac};
use protocols::sasl::scram::{
    auth_message, check_client_key, check_server_final, client_final_message, client_final_without_proof,
    client_first_message, client_proof, gen_nonce, message_text, read_client_final, read_client_first,
    read_server_first, recover_client_key, sasl_get, sasl_prep, server_final_message, server_first_message,
    Error, MIN_ITERATIONS,
};
use sha2::{Digest, Sha256};

fn hmac(key: &[u8], data: &[u8]) -> Vec<u8> {
    let mut m = Hmac::<Sha256>::new_varkey(key).unwrap();
    m.update(data);
    m.finalize().into_bytes().to_vec()
}

fn salted_password(password: &str, salt: &[u8], iterations: usize) -> Vec<u8> {
    let mut out = [0u8; 32];
    pbkdf2::pbkdf2::<Hmac<Sha256>>(password.as_bytes(), salt, iterations as u32, &mut out);
    out.to_vec()
}

const SERVER_FIRST: &str =
    "r=rOprNGfwEbeRWgbNEkqO%hvYDpWUa2RaTCAfuxFIlj)hNlF$k0,s=W22ZaJ0SNY7soEsUEjb6gQ==,i=4096";

#[test]
fn test_auth() {}

#[test]
fn scram_sasl_get() {
    assert_eq!(sasl_get("r=abc,s=xyz,i=4096", "s="), Some("xyz"));
    assert_eq!(sasl_get("r=abc,s=xyz,i=4096", "i="), Some("4096"));
    assert_eq!(sasl_get("r=abc,s=xyz,i=4096", "r="), Some("abc"));
    assert_eq!(sasl_get("r=abc,s=xyz", "v="), None);
    assert_eq!(sasl_get("r=,s=x", "r="), Some(""));
    assert_eq!(sasl_get("ar=1,r=2", "r="), Some("1"));
}

#[test]
fn scram_client_exchange_rfc7677() {
    let user = sasl_prep("user").unwrap();
    let password = sasl_prep("pencil").unwrap();
    let first = client_first_message(&user, "rOprNGfwEbeRWgbNEkqO");
    assert_eq!(first, "n,,n=user,r=rOprNGfwEbeRWgbNEkqO");

    let server_first = message_text(SERVER_FIRST.as_bytes()).unwrap();
    let sf = read_server_first(server_first, "rOprNGfwEbeRWgbNEkqO", &password).unwrap();
    assert_eq!(sf.combined_nonce, "rOprNGfwEbeRWgbNEkqO%hvYDpWUa2RaTCAfuxFIlj)hNlF$k0");
    assert_eq!(sf.iterations, 4096);
    assert_eq!(sf.salt.len(), 16);

    let without_proof = client_final_without_proof(&sf.combined_nonce);
    assert_eq!(without_proof, "c=biws,r=rOprNGfwEbeRWgbNEkqO%hvYDpWUa2RaTCAfuxFIlj)hNlF$k0");
    let auth = auth_message(&first, server_first, &without_proof);
    assert_eq!(auth, format!("n=user,r=rOprNGfwEbeRWgbNEkqO,{},{}", SERVER_FIRST, without_proof));

    let salted = salted_password(&password, &sf.salt, sf.iterations);
    let client_key = hmac(&salted, b"Client Key");
    let server_key = hmac(&salted, b"Server Key");
    let stored_key = Sha256::digest(&client_key).to_vec();
    let client_signature = hmac(&stored_key, auth.as_bytes());
    let server_signature = hmac(&server_key, auth.as_bytes());
    let proof = client_proof(&client_key, &client_signature);
    let last = client_final_message(&without_proof, &proof);
    assert_eq!(
        last,
        "c=biws,r=rOprNGfwEbeRWgbNEkqO%hvYDpWUa2RaTCAfuxFIlj)hNlF$k0,p=dHzbZapWIk4jUhN+Ute9ytag9zjfMHgsqmmiz7AndVQ="
    );
    assert!(check_server_final("v=6rriTRBi23WpRR/wtup+mMhUZUn/dB5nLTJRsjl95G4=", &server_signature).is_ok());
    assert!(matches!(
        check_server_final("v=AAAA", &server_signature),
        Err(Error::InvalidSignatureOrProof)
    ));
    assert!(matches!(check_server_final("x=1", &server_signature), Err(Error::InvalidReply)));
    assert!(matches!(check_server_final("v=!!", &server_signature), Err(Error::InvalidReply)));
    assert_eq!(recover_client_key(&client_signature, &proof), client_key);
}

#[test]
fn scram_server_first_errors() {
    let nonce = "rOprNGfwEbeRWgbNEkqO";
    assert!(matches!(read_server_first("s=AA==,i=4096", nonce, "pw"), Err(Error::InvalidReply)));
    assert!(matches!(read_server_first("r=x,i=4096", nonce, "pw"), Err(Error::InvalidReply)));
    assert!(matches!(read_server_first("r=x,s=!!,i=4096", nonce, "pw"), Err(Error::InvalidReply)));
    assert!(matches!(read_server_first("r=x,s=AA==,i=many", nonce, "pw"), Err(Error::InvalidReply)));
    let few = format!("r={}abc,s=AA==,i={}", nonce, MIN_ITERATIONS - 1);
    assert!(matches!(read_server_first(&few, nonce, "pw"), Err(Error::InvalidIterationCount)));
    assert!(read_server_first(&few, nonce, "").is_ok());
    assert!(matches!(read_server_first("r=other,s=AA==,i=4096", nonce, "pw"), Err(Error::InvalidNonce)));
    assert!(matches!(message_text(&[0xff, 0xfe]), Err(Error::InvalidReply)));
    assert!(matches!(sasl_prep("a\u{0007}b"), Err(Error::SaslPrepFailed)));
}

#[test]
fn scram_server_side() {
    let (user, nonce) = read_client_first("n,,n=user,r=abc").unwrap();
    assert_eq!((user, nonce), ("user", "abc"));
    assert!(matches!(read_client_first("y,,n=user,r=abc"), Err(Error::InvalidReply)));
    assert!(matches!(read_client_first("n,,r=abc"), Err(Error::InvalidReply)));
    assert!(matches!(read_client_first("n,,n=user"), Err(Error::InvalidReply)));

    let first = server_first_message("abc", "XYZ", &[1, 2, 3], 4096);
    assert_eq!(first, "r=abcXYZ,s=AQID,i=4096");

    let last = "c=biws,r=abcXYZ,p=AQID";
    assert_eq!(read_client_final(last, "abc", "XYZ", 3).unwrap(), vec![1, 2, 3]);
    assert!(matches!(read_client_final(last, "abc", "XYZ", 4), Err(Error::InvalidSignatureOrProof)));
    assert!(matches!(read_client_final("c=biws,r=XYZabc,p=AQID", "abc", "XYZ", 3), Err(Error::InvalidNonce)));
    assert!(matches!(read_client_final("c=xx,r=abcXYZ,p=AQID", "abc", "XYZ", 3), Err(Error::InvalidReply)));
    assert!(matches!(read_client_final("c=biws,r=abcXYZ", "abc", "XYZ", 3), Err(Error::InvalidReply)));
    assert!(matches!(read_client_final("c=biws,p=AQID", "abc", "XYZ", 3), Err(Error::InvalidReply)));

    let auth = auth_message("n,,n=user,r=abc", &first, last);
    assert_eq!(auth, "n=user,r=abc,r=abcXYZ,s=AQID,i=4096,c=biws,r=abcXYZ,p=AQID");
    assert!(check_client_key(&[1, 2], &[1, 2]).is_ok());
    assert!(matches!(check_client_key(&[1, 2], &[1, 3]), Err(Error::InvalidSignatureOrProof)));
    assert_eq!(server_final_message(&[0xff; 3]), "v=////");
}

#[test]
fn scram_proof_and_nonce() {
    let key: Vec<u8> = (0..40).collect();
    let sig: Vec<u8> = vec![0xaa; 40];
    let p = client_proof(&key, &sig);
    assert_eq!(p.len(), 40);
    assert_eq!(p[0], 0xaa);
    assert_eq!(p[31], 31 ^ 0xaa);
    assert!(p[32..].iter().all(|b| *b == 0));
    let n = gen_nonce(24);
    assert_eq!(n.len(), 24);
    assert!(n.iter().all(|b| (0x30..0x5b).contains(b)));
}

#[test]
fn scram_saslprep_maps() {
    assert_eq!(sasl_prep("a\u{00A0}b").unwrap(), "a b");
    assert_eq!(sasl_prep("I\u{00AD}X").unwrap(), "IX");
    assert_eq!(sasl_prep("user").unwrap(), "user");
}

#[test]
fn exchange_buffer_room() {
    let mut room = protocols::sasl::scram::Room::new();
    assert_eq!(room.left, protocols::sasl::scram::BUFFER_LEN);
    assert_eq!(room.take(1000), Ok(()));
    assert_eq!(room.left, 24);
    assert_eq!(room.take(25), Err(()));
    assert_eq!(room.left, 24);
    room.separator();
    assert_eq!(room.left, 23);
}
