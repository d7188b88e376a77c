//! Session properties for client connections, including SSL/TLS and OAuth2
//! authentication options. The properties are held as plain typed values;
//! turning them into the driver's key/value wire form is the native
//! adapter's concern.

use vstd::prelude::*;

verus! {

/// Connection and session configuration, set through a builder chain.
///
/// An optional property left as `None` is not sent to the broker at all;
/// `Some` of an empty string is sent with that empty value.
#[derive(Debug)]
pub struct SessionProps {
    pub username: String,
    pub password: String,
    pub host: String,
    pub vpn: String,
    pub client_name: String,
    pub connect_timeout_ms: u32,
    pub tcp_nodelay: bool,
    pub keep_alive_int_ms: u32,
    pub keep_alive_limit: u32,
    pub compression_level: u32,
    pub generate_rcv_timestamps: bool,
    pub generate_send_timestamps: bool,
    pub generate_sender_id: bool,
    pub generate_sequence_number: bool,
    pub connect_retries: i32,
    pub reconnect_retries: i32,
    pub reconnect_retry_wait_ms: u32,
    pub reapply_subscriptions: bool,
    pub ssl_trust_store_dir: Option<String>,
    pub ssl_validate_certificate: Option<bool>,
    pub ssl_validate_certificate_date: Option<bool>,
    pub ssl_validate_certificate_host: Option<bool>,
    pub ssl_cipher_suites: Option<String>,
    pub ssl_excluded_protocols: Option<String>,
    pub ssl_client_certificate_file: Option<String>,
    pub ssl_client_private_key_file: Option<String>,
    pub ssl_client_private_key_file_password: Option<String>,
    pub ssl_trusted_common_name_list: Option<String>,
    pub authentication_scheme: Option<String>,
    pub oauth2_access_token: Option<String>,
    pub oauth2_issuer_identifier: Option<String>,
    pub oidc_id_token: Option<String>,
}

impl Default for SessionProps {
    fn default() -> (r: Self)
        ensures
            r.username@ == Seq::<char>::empty(),
            r.password@ == Seq::<char>::empty(),
            r.host@ == Seq::<char>::empty(),
            r.vpn@ == Seq::<char>::empty(),
            r.client_name@ == Seq::<char>::empty(),
            r.connect_timeout_ms == 30000u32,
            r.tcp_nodelay == true,
            r.keep_alive_int_ms == 3000u32,
            r.keep_alive_limit == 3u32,
            r.compression_level == 0u32,
            r.generate_rcv_timestamps == false,
            r.generate_send_timestamps == false,
            r.generate_sender_id == false,
            r.generate_sequence_number == false,
            r.connect_retries == 0i32,
            r.reconnect_retries == 0i32,
            r.reconnect_retry_wait_ms == 3000u32,
            r.reapply_subscriptions == false,
            r.ssl_trust_store_dir is None,
            r.ssl_validate_certificate is None,
            r.ssl_validate_certificate_date is None,
            r.ssl_validate_certificate_host is None,
            r.ssl_cipher_suites is None,
            r.ssl_excluded_protocols is None,
            r.ssl_client_certificate_file is None,
            r.ssl_client_private_key_file is None,
            r.ssl_client_private_key_file_password is None,
            r.ssl_trusted_common_name_list is None,
            r.authentication_scheme is None,
            r.oauth2_access_token is None,
            r.oauth2_issuer_identifier is None,
            r.oidc_id_token is None,
    {
        SessionProps {
            username: String::new(),
            password: String::new(),
            host: String::new(),
            vpn: String::new(),
            client_name: String::new(),
            connect_timeout_ms: 30000,
            tcp_nodelay: true,
            keep_alive_int_ms: 3000,
            keep_alive_limit: 3,
            compression_level: 0,
            generate_rcv_timestamps: false,
            generate_send_timestamps: false,
            generate_sender_id: false,
            generate_sequence_number: false,
            connect_retries: 0,
            reconnect_retries: 0,
            reconnect_retry_wait_ms: 3000,
            reapply_subscriptions: false,
            ssl_trust_store_dir: None,
            ssl_validate_certificate: None,
            ssl_validate_certificate_date: None,
            ssl_validate_certificate_host: None,
            ssl_cipher_suites: None,
            ssl_excluded_protocols: None,
            ssl_client_certificate_file: None,
            ssl_client_private_key_file: None,
            ssl_client_private_key_file_password: None,
            ssl_trusted_common_name_list: None,
            authentication_scheme: None,
            oauth2_access_token: None,
            oauth2_issuer_identifier: None,
            oidc_id_token: None,
        }
    }
}

/// Ghost image of an optional text property.
pub open spec fn opt_str_view(s: Option<String>) -> Option<Seq<char>> {
    match s {
        Some(ss) => Some(ss@),
        None => None,
    }
}

impl SessionProps {
    /// Sets the user name.
    pub fn username(self, username: &str) -> (r: Self)
        ensures
            r.username@ == username@,
            r == (SessionProps { username: r.username, ..self }),
    {
        SessionProps { username: username.to_owned(), ..self }
    }

    /// Sets the password.
    pub fn password(self, password: &str) -> (r: Self)
        ensures
            r.password@ == password@,
            r == (SessionProps { password: r.password, ..self }),
    {
        SessionProps { password: password.to_owned(), ..self }
    }

    /// Sets the broker host.
    pub fn host(self, host: &str) -> (r: Self)
        ensures
            r.host@ == host@,
            r == (SessionProps { host: r.host, ..self }),
    {
        SessionProps { host: host.to_owned(), ..self }
    }

    /// Sets the message VPN name.
    pub fn vpn(self, vpn: &str) -> (r: Self)
        ensures
            r.vpn@ == vpn@,
            r == (SessionProps { vpn: r.vpn, ..self }),
    {
        SessionProps { vpn: vpn.to_owned(), ..self }
    }

    /// Sets the compression level; the driver accepts levels 0 through 9.
    pub fn compression_level(self, compression_level: u32) -> (r: Self)
        requires
            compression_level < 10,
        ensures
            r == (SessionProps { compression_level, ..self }),
    {
        SessionProps { compression_level, ..self }
    }

    /// Sets the connect timeout, in milliseconds.
    pub fn connect_timeout_ms(self, timeout: u32) -> (r: Self)
        ensures
            r == (SessionProps { connect_timeout_ms: timeout, ..self }),
    {
        SessionProps { connect_timeout_ms: timeout, ..self }
    }

    /// Enables or disables Nagle's algorithm suppression.
    pub fn tcp_nodelay(self, enable: bool) -> (r: Self)
        ensures
            r == (SessionProps { tcp_nodelay: enable, ..self }),
    {
        SessionProps { tcp_nodelay: enable, ..self }
    }

    /// Sets the client name.
    pub fn client_name(self, client_name: &str) -> (r: Self)
        ensures
            r.client_name@ == client_name@,
            r == (SessionProps { client_name: r.client_name, ..self }),
    {
        SessionProps { client_name: client_name.to_owned(), ..self }
    }

    /// Sets the keep-alive interval, in milliseconds.
    pub fn keep_alive_int_ms(self, keep_alive_int_ms: u32) -> (r: Self)
        ensures
            r == (SessionProps { keep_alive_int_ms, ..self }),
    {
        SessionProps { keep_alive_int_ms, ..self }
    }

    /// Sets the number of missed keep-alives that fails the session.
    pub fn keep_alive_limit(self, keep_alive_limit: u32) -> (r: Self)
        ensures
            r == (SessionProps { keep_alive_limit, ..self }),
    {
        SessionProps { keep_alive_limit, ..self }
    }

    /// Enables or disables receive timestamps.
    pub fn generate_rcv_timestamps(self, generate_rcv_timestamps: bool) -> (r: Self)
        ensures
            r == (SessionProps { generate_rcv_timestamps, ..self }),
    {
        SessionProps { generate_rcv_timestamps, ..self }
    }

    /// Enables or disables send timestamps.
    pub fn generate_send_timestamps(self, generate_send_timestamps: bool) -> (r: Self)
        ensures
            r == (SessionProps { generate_send_timestamps, ..self }),
    {
        SessionProps { generate_send_timestamps, ..self }
    }

    /// Enables or disables sender identifiers.
    pub fn generate_sender_id(self, generate_sender_id: bool) -> (r: Self)
        ensures
            r == (SessionProps { generate_sender_id, ..self }),
    {
        SessionProps { generate_sender_id, ..self }
    }

    /// Enables or disables sequence numbers.
    pub fn generate_sequence_number(self, generate_sequence_number: bool) -> (r: Self)
        ensures
            r == (SessionProps { generate_sequence_number, ..self }),
    {
        SessionProps { generate_sequence_number, ..self }
    }

    /// Sets the number of connection retries: `0` tries once and gives up,
    /// `-1` retries forever, a positive count retries that many times.
    pub fn connect_retries(self, connect_retries: i32) -> (r: Self)
        ensures
            r == (SessionProps { connect_retries, ..self }),
    {
        SessionProps { connect_retries, ..self }
    }

    /// Sets the number of reconnection retries after the connection goes
    /// down: `0` never reconnects, `-1` reconnects forever, a positive
    /// count retries that many times.
    pub fn reconnect_retries(self, reconnect_retries: i32) -> (r: Self)
        ensures
            r == (SessionProps { reconnect_retries, ..self }),
    {
        SessionProps { reconnect_retries, ..self }
    }

    /// Sets the wait between reconnection retries, in milliseconds.
    pub fn reconnect_retry_wait_ms(self, reconnect_retry_wait_ms: u32) -> (r: Self)
        ensures
            r == (SessionProps { reconnect_retry_wait_ms, ..self }),
    {
        SessionProps { reconnect_retry_wait_ms, ..self }
    }

    /// Enables or disables reapplying subscriptions after reconnection.
    pub fn reapply_subscriptions(self, reapply_subscriptions: bool) -> (r: Self)
        ensures
            r == (SessionProps { reapply_subscriptions, ..self }),
    {
        SessionProps { reapply_subscriptions, ..self }
    }

    /// Sets the SSL trust store directory path; `None` leaves the property
    /// unsent.
    pub fn ssl_trust_store_dir(self, dir: Option<&str>) -> (r: Self)
        ensures
            opt_str_view(r.ssl_trust_store_dir) == match dir {
                Some(d) => Some(d@),
                None => None,
            },
            r == (SessionProps { ssl_trust_store_dir: r.ssl_trust_store_dir, ..self }),
    {
        SessionProps {
            ssl_trust_store_dir: match dir {
                Some(d) => Some(d.to_owned()),
                None => None,
            },
            ..self
        }
    }

    /// Sets whether to validate the server certificate; `None` leaves the
    /// property unsent.
    pub fn ssl_validate_certificate(self, validate: Option<bool>) -> (r: Self)
        ensures
            r == (SessionProps { ssl_validate_certificate: validate, ..self }),
    {
        SessionProps { ssl_validate_certificate: validate, ..self }
    }

    /// Sets whether to validate the certificate date; `None` leaves the
    /// property unsent.
    pub fn ssl_validate_certificate_date(self, validate: Option<bool>) -> (r: Self)
        ensures
            r == (SessionProps { ssl_validate_certificate_date: validate, ..self }),
    {
        SessionProps { ssl_validate_certificate_date: validate, ..self }
    }

    /// Sets whether to validate the certificate host name; `None` leaves
    /// the property unsent.
    pub fn ssl_validate_certificate_host(self, validate: Option<bool>) -> (r: Self)
        ensures
            r == (SessionProps { ssl_validate_certificate_host: validate, ..self }),
    {
        SessionProps { ssl_validate_certificate_host: validate, ..self }
    }

    /// Sets the SSL cipher suites; `None` leaves the property unsent.
    pub fn ssl_cipher_suites(self, suites: Option<&str>) -> (r: Self)
        ensures
            opt_str_view(r.ssl_cipher_suites) == match suites {
                Some(d) => Some(d@),
                None => None,
            },
            r == (SessionProps { ssl_cipher_suites: r.ssl_cipher_suites, ..self }),
    {
        SessionProps {
            ssl_cipher_suites: match suites {
                Some(d) => Some(d.to_owned()),
                None => None,
            },
            ..self
        }
    }

    /// Sets the SSL protocols to exclude; `None` leaves the property
    /// unsent.
    pub fn ssl_excluded_protocols(self, protocols: Option<&str>) -> (r: Self)
        ensures
            opt_str_view(r.ssl_excluded_protocols) == match protocols {
                Some(d) => Some(d@),
                None => None,
            },
            r == (SessionProps { ssl_excluded_protocols: r.ssl_excluded_protocols, ..self }),
    {
        SessionProps {
            ssl_excluded_protocols: match protocols {
                Some(d) => Some(d.to_owned()),
                None => None,
            },
            ..self
        }
    }

    /// Sets the client certificate file for mutual TLS; `None` leaves the
    /// property unsent.
    pub fn ssl_client_certificate_file(self, path: Option<&str>) -> (r: Self)
        ensures
            opt_str_view(r.ssl_client_certificate_file) == match path {
                Some(d) => Some(d@),
                None => None,
            },
            r == (SessionProps {
                ssl_client_certificate_file: r.ssl_client_certificate_file,
                ..self
            }),
    {
        SessionProps {
            ssl_client_certificate_file: match path {
                Some(d) => Some(d.to_owned()),
                None => None,
            },
            ..self
        }
    }

    /// Sets the client private key file for mutual TLS; `None` leaves the
    /// property unsent.
    pub fn ssl_client_private_key_file(self, path: Option<&str>) -> (r: Self)
        ensures
            opt_str_view(r.ssl_client_private_key_file) == match path {
                Some(d) => Some(d@),
                None => None,
            },
            r == (SessionProps {
                ssl_client_private_key_file: r.ssl_client_private_key_file,
                ..self
            }),
    {
        SessionProps {
            ssl_client_private_key_file: match path {
                Some(d) => Some(d.to_owned()),
                None => None,
            },
            ..self
        }
    }

    /// Sets the password for the client private key file; `None` leaves
    /// the property unsent.
    pub fn ssl_client_private_key_file_password(self, password: Option<&str>) -> (r: Self)
        ensures
            opt_str_view(r.ssl_client_private_key_file_password) == match password {
                Some(d) => Some(d@),
                None => None,
            },
            r == (SessionProps {
                ssl_client_private_key_file_password: r.ssl_client_private_key_file_password,
                ..self
            }),
    {
        SessionProps {
            ssl_client_private_key_file_password: match password {
                Some(d) => Some(d.to_owned()),
                None => None,
            },
            ..self
        }
    }

    /// Sets the trusted common names for certificate validation; `None`
    /// leaves the property unsent.
    pub fn ssl_trusted_common_name_list(self, names: Option<&str>) -> (r: Self)
        ensures
            opt_str_view(r.ssl_trusted_common_name_list) == match names {
                Some(d) => Some(d@),
                None => None,
            },
            r == (SessionProps {
                ssl_trusted_common_name_list: r.ssl_trusted_common_name_list,
                ..self
            }),
    {
        SessionProps {
            ssl_trusted_common_name_list: match names {
                Some(d) => Some(d.to_owned()),
                None => None,
            },
            ..self
        }
    }

    /// Sets the authentication scheme; `None` leaves the property unsent.
    pub fn authentication_scheme(self, scheme: Option<&str>) -> (r: Self)
        ensures
            opt_str_view(r.authentication_scheme) == match scheme {
                Some(d) => Some(d@),
                None => None,
            },
            r == (SessionProps { authentication_scheme: r.authentication_scheme, ..self }),
    {
        SessionProps {
            authentication_scheme: match scheme {
                Some(d) => Some(d.to_owned()),
                None => None,
            },
            ..self
        }
    }

    /// Sets the OAuth2 access token; `None` leaves the property unsent.
    pub fn oauth2_access_token(self, token: Option<&str>) -> (r: Self)
        ensures
            opt_str_view(r.oauth2_access_token) == match token {
                Some(d) => Some(d@),
                None => None,
            },
            r == (SessionProps { oauth2_access_token: r.oauth2_access_token, ..self }),
    {
        SessionProps {
            oauth2_access_token: match token {
                Some(d) => Some(d.to_owned()),
                None => None,
            },
            ..self
        }
    }

    /// Sets the OAuth2 issuer identifier; `None` leaves the property
    /// unsent.
    pub fn oauth2_issuer_identifier(self, issuer: Option<&str>) -> (r: Self)
        ensures
            opt_str_view(r.oauth2_issuer_identifier) == match issuer {
                Some(d) => Some(d@),
                None => None,
            },
            r == (SessionProps { oauth2_issuer_identifier: r.oauth2_issuer_identifier, ..self }),
    {
        SessionProps {
            oauth2_issuer_identifier: match issuer {
                Some(d) => Some(d.to_owned()),
                None => None,
            },
            ..self
        }
    }

    /// Sets the OIDC identity token; `None` leaves the property unsent.
    pub fn oidc_id_token(self, token: Option<&str>) -> (r: Self)
        ensures
            opt_str_view(r.oidc_id_token) == match token {
                Some(d) => Some(d@),
                None => None,
            },
            r == (SessionProps { oidc_id_token: r.oidc_id_token, ..self }),
    {
        SessionProps {
            oidc_id_token: match token {
                Some(d) => Some(d.to_owned()),
                None => None,
            },
            ..self
        }
    }
}

} // verus!
