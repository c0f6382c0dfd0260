/*
 * Access to the fields of a KCP control block that ikcp.h has no function for.
 * Compiled together with ikcp.c and declared in app/ffi.rs.
 */
#include "ikcp.h"

IUINT32 kcp_link_mss(const ikcpcb *kcp) { return kcp->mss; }

IUINT32 kcp_link_snd_wnd(const ikcpcb *kcp) { return kcp->snd_wnd; }

IUINT32 kcp_link_rcv_wnd(const ikcpcb *kcp) { return kcp->rcv_wnd; }

void kcp_link_set_stream(ikcpcb *kcp, int stream) { kcp->stream = stream; }

void kcp_link_set_interval(ikcpcb *kcp, IUINT32 interval) { kcp->interval = interval; }
