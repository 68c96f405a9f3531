//! The names that frames and their members go by are different names.

use vstd::prelude::*;

verus! {

/// A number by which the names that this library uses can be told apart.
pub closed spec fn mark(name: Seq<char>) -> int {
    name.len() + 100 * (name[0] as int) + 20000 * (name[1] as int) + 4000000 * (
    name[name.len() - 1] as int) + 800000000 * (name[name.len() as int / 2] as int)
        + 160000000000 * (name[name.len() as int * 2 / 3] as int)
}

proof fn lemma_names_0()
    ensures
        mark("_invocation"@) == 18639642109511,
        mark("_meta"@) == 18641190189505,
        mark("accepted"@) == 18650001989708,
        mark("acpSessionId"@) == 17852401989712,
        mark("acp_session_id_changed"@) == 15276401989722,
        mark("active"@) == 18964405989706,
        mark("activeAmuxTurnId"@) == 13534001989716,
        mark("activeSegmentId"@) == 16241201989715,
        mark("activeTurn"@) == 13521241989710,
        mark("activeTurnMuxId"@) == 12414001989715,
        mark("afterMessageId"@) == 15612402049714,
        mark("after_message"@) == 18487606049713,
{
    reveal_strlit("_invocation");
    reveal_strlit("_meta");
    reveal_strlit("accepted");
    reveal_strlit("acpSessionId");
    reveal_strlit("acp_session_id_changed");
    reveal_strlit("active");
    reveal_strlit("activeAmuxTurnId");
    reveal_strlit("activeSegmentId");
    reveal_strlit("activeTurn");
    reveal_strlit("activeTurnMuxId");
    reveal_strlit("afterMessageId");
    reveal_strlit("after_message");
    assert("_invocation"@.len() == 11 && "_invocation"@[0] == '_' && "_invocation"@[1] == 'i' && "_invocation"@[10] == 'n' && "_invocation"@[5] == 'c' && "_invocation"@[7] == 't');
    assert("_meta"@.len() == 5 && "_meta"@[0] == '_' && "_meta"@[1] == 'm' && "_meta"@[4] == 'a' && "_meta"@[2] == 'e' && "_meta"@[3] == 't');
    assert("accepted"@.len() == 8 && "accepted"@[0] == 'a' && "accepted"@[1] == 'c' && "accepted"@[7] == 'd' && "accepted"@[4] == 'p' && "accepted"@[5] == 't');
    assert("acpSessionId"@.len() == 12 && "acpSessionId"@[0] == 'a' && "acpSessionId"@[1] == 'c' && "acpSessionId"@[11] == 'd' && "acpSessionId"@[6] == 's' && "acpSessionId"@[8] == 'o');
    assert("acp_session_id_changed"@.len() == 22 && "acp_session_id_changed"@[0] == 'a' && "acp_session_id_changed"@[1] == 'c' && "acp_session_id_changed"@[21] == 'd' && "acp_session_id_changed"@[11] == '_' && "acp_session_id_changed"@[14] == '_');
    assert("active"@.len() == 6 && "active"@[0] == 'a' && "active"@[1] == 'c' && "active"@[5] == 'e' && "active"@[3] == 'i' && "active"@[4] == 'v');
    assert("activeAmuxTurnId"@.len() == 16 && "activeAmuxTurnId"@[0] == 'a' && "activeAmuxTurnId"@[1] == 'c' && "activeAmuxTurnId"@[15] == 'd' && "activeAmuxTurnId"@[8] == 'u' && "activeAmuxTurnId"@[10] == 'T');
    assert("activeSegmentId"@.len() == 15 && "activeSegmentId"@[0] == 'a' && "activeSegmentId"@[1] == 'c' && "activeSegmentId"@[14] == 'd' && "activeSegmentId"@[7] == 'e' && "activeSegmentId"@[10] == 'e');
    assert("activeTurn"@.len() == 10 && "activeTurn"@[0] == 'a' && "activeTurn"@[1] == 'c' && "activeTurn"@[9] == 'n' && "activeTurn"@[5] == 'e' && "activeTurn"@[6] == 'T');
    assert("activeTurnMuxId"@.len() == 15 && "activeTurnMuxId"@[0] == 'a' && "activeTurnMuxId"@[1] == 'c' && "activeTurnMuxId"@[14] == 'd' && "activeTurnMuxId"@[7] == 'u' && "activeTurnMuxId"@[10] == 'M');
    assert("afterMessageId"@.len() == 14 && "afterMessageId"@[0] == 'a' && "afterMessageId"@[1] == 'f' && "afterMessageId"@[13] == 'd' && "afterMessageId"@[7] == 's' && "afterMessageId"@[9] == 'a');
    assert("after_message"@.len() == 13 && "after_message"@[0] == 'a' && "after_message"@[1] == 'f' && "after_message"@[12] == 'e' && "after_message"@[6] == 'm' && "after_message"@[8] == 's');
}

proof fn lemma_names_1()
    ensures
        mark("agentCapabilities"@) == 17358062069717,
        mark("agentCwd"@) == 10813202069708,
        mark("agentInfo"@) == 17693246069709,
        mark("agent_message_chunk"@) == 16252430069719,
        mark("allow_once"@) == 17836406169710,
        mark("amux"@) == 18814082189704,
        mark("amuxTurnId"@) == 18334002189710,
        mark("appliedHistoryDelivery"@) == 10969286249722,
        mark("appliedReplayOrder"@) == 19450058249718,
        mark("backfill"@) == 16882033949808,
        mark("block"@) == 15929230169805,
        mark("busy"@) == 18492486349804,
{
    reveal_strlit("agentCapabilities");
    reveal_strlit("agentCwd");
    reveal_strlit("agentInfo");
    reveal_strlit("agent_message_chunk");
    reveal_strlit("allow_once");
    reveal_strlit("amux");
    reveal_strlit("amuxTurnId");
    reveal_strlit("appliedHistoryDelivery");
    reveal_strlit("appliedReplayOrder");
    reveal_strlit("backfill");
    reveal_strlit("block");
    reveal_strlit("busy");
    assert("agentCapabilities"@.len() == 17 && "agentCapabilities"@[0] == 'a' && "agentCapabilities"@[1] == 'g' && "agentCapabilities"@[16] == 's' && "agentCapabilities"@[8] == 'a' && "agentCapabilities"@[11] == 'l');
    assert("agentCwd"@.len() == 8 && "agentCwd"@[0] == 'a' && "agentCwd"@[1] == 'g' && "agentCwd"@[7] == 'd' && "agentCwd"@[4] == 't' && "agentCwd"@[5] == 'C');
    assert("agentInfo"@.len() == 9 && "agentInfo"@[0] == 'a' && "agentInfo"@[1] == 'g' && "agentInfo"@[8] == 'o' && "agentInfo"@[4] == 't' && "agentInfo"@[6] == 'n');
    assert("agent_message_chunk"@.len() == 19 && "agent_message_chunk"@[0] == 'a' && "agent_message_chunk"@[1] == 'g' && "agent_message_chunk"@[18] == 'k' && "agent_message_chunk"@[9] == 's' && "agent_message_chunk"@[12] == 'e');
    assert("allow_once"@.len() == 10 && "allow_once"@[0] == 'a' && "allow_once"@[1] == 'l' && "allow_once"@[9] == 'e' && "allow_once"@[5] == '_' && "allow_once"@[6] == 'o');
    assert("amux"@.len() == 4 && "amux"@[0] == 'a' && "amux"@[1] == 'm' && "amux"@[3] == 'x' && "amux"@[2] == 'u' && "amux"@[2] == 'u');
    assert("amuxTurnId"@.len() == 10 && "amuxTurnId"@[0] == 'a' && "amuxTurnId"@[1] == 'm' && "amuxTurnId"@[9] == 'd' && "amuxTurnId"@[5] == 'u' && "amuxTurnId"@[6] == 'r');
    assert("appliedHistoryDelivery"@.len() == 22 && "appliedHistoryDelivery"@[0] == 'a' && "appliedHistoryDelivery"@[1] == 'p' && "appliedHistoryDelivery"@[21] == 'y' && "appliedHistoryDelivery"@[11] == 'o' && "appliedHistoryDelivery"@[14] == 'D');
    assert("appliedReplayOrder"@.len() == 18 && "appliedReplayOrder"@[0] == 'a' && "appliedReplayOrder"@[1] == 'p' && "appliedReplayOrder"@[17] == 'r' && "appliedReplayOrder"@[9] == 'p' && "appliedReplayOrder"@[12] == 'y');
    assert("backfill"@.len() == 8 && "backfill"@[0] == 'b' && "backfill"@[1] == 'a' && "backfill"@[7] == 'l' && "backfill"@[4] == 'f' && "backfill"@[5] == 'i');
    assert("block"@.len() == 5 && "block"@[0] == 'b' && "block"@[1] == 'l' && "block"@[4] == 'k' && "block"@[2] == 'o' && "block"@[3] == 'c');
    assert("busy"@.len() == 4 && "busy"@[0] == 'b' && "busy"@[1] == 'u' && "busy"@[3] == 'y' && "busy"@[2] == 's' && "busy"@[2] == 's');
}

proof fn lemma_names_2()
    ensures
        mark("cachedSessionId"@) == 16881201949915,
        mark("cancelledBy"@) == 16246885949911,
        mark("chosenOptionId"@) == 16890002089914,
        mark("chronological"@) == 16566834089913,
        mark("client"@) == 17681266169906,
        mark("clientCapabilities"@) == 17358062169918,
        mark("clientId"@) == 18648402169908,
        mark("clientInfo"@) == 11773246169910,
        mark("client_tool_blocked"@) == 15769202169919,
        mark("closedAt"@) == 16081266169908,
        mark("closedReplaySeq"@) == 15601254169915,
        mark("code"@) == 16080406229904,
{
    reveal_strlit("cachedSessionId");
    reveal_strlit("cancelledBy");
    reveal_strlit("chosenOptionId");
    reveal_strlit("chronological");
    reveal_strlit("client");
    reveal_strlit("clientCapabilities");
    reveal_strlit("clientId");
    reveal_strlit("clientInfo");
    reveal_strlit("client_tool_blocked");
    reveal_strlit("closedAt");
    reveal_strlit("closedReplaySeq");
    reveal_strlit("code");
    assert("cachedSessionId"@.len() == 15 && "cachedSessionId"@[0] == 'c' && "cachedSessionId"@[1] == 'a' && "cachedSessionId"@[14] == 'd' && "cachedSessionId"@[7] == 'e' && "cachedSessionId"@[10] == 'i');
    assert("cancelledBy"@.len() == 11 && "cancelledBy"@[0] == 'c' && "cancelledBy"@[1] == 'a' && "cancelledBy"@[10] == 'y' && "cancelledBy"@[5] == 'l' && "cancelledBy"@[7] == 'e');
    assert("chosenOptionId"@.len() == 14 && "chosenOptionId"@[0] == 'c' && "chosenOptionId"@[1] == 'h' && "chosenOptionId"@[13] == 'd' && "chosenOptionId"@[7] == 'p' && "chosenOptionId"@[9] == 'i');
    assert("chronological"@.len() == 13 && "chronological"@[0] == 'c' && "chronological"@[1] == 'h' && "chronological"@[12] == 'l' && "chronological"@[6] == 'l' && "chronological"@[8] == 'g');
    assert("client"@.len() == 6 && "client"@[0] == 'c' && "client"@[1] == 'l' && "client"@[5] == 't' && "client"@[3] == 'e' && "client"@[4] == 'n');
    assert("clientCapabilities"@.len() == 18 && "clientCapabilities"@[0] == 'c' && "clientCapabilities"@[1] == 'l' && "clientCapabilities"@[17] == 's' && "clientCapabilities"@[9] == 'a' && "clientCapabilities"@[12] == 'l');
    assert("clientId"@.len() == 8 && "clientId"@[0] == 'c' && "clientId"@[1] == 'l' && "clientId"@[7] == 'd' && "clientId"@[4] == 'n' && "clientId"@[5] == 't');
    assert("clientInfo"@.len() == 10 && "clientInfo"@[0] == 'c' && "clientInfo"@[1] == 'l' && "clientInfo"@[9] == 'o' && "clientInfo"@[5] == 't' && "clientInfo"@[6] == 'I');
    assert("client_tool_blocked"@.len() == 19 && "client_tool_blocked"@[0] == 'c' && "client_tool_blocked"@[1] == 'l' && "client_tool_blocked"@[18] == 'd' && "client_tool_blocked"@[9] == 'o' && "client_tool_blocked"@[12] == 'b');
    assert("closedAt"@.len() == 8 && "closedAt"@[0] == 'c' && "closedAt"@[1] == 'l' && "closedAt"@[7] == 't' && "closedAt"@[4] == 'e' && "closedAt"@[5] == 'd');
    assert("closedReplaySeq"@.len() == 15 && "closedReplaySeq"@[0] == 'c' && "closedReplaySeq"@[1] == 'l' && "closedReplaySeq"@[14] == 'q' && "closedReplaySeq"@[7] == 'e' && "closedReplaySeq"@[10] == 'a');
    assert("code"@.len() == 4 && "code"@[0] == 'c' && "code"@[1] == 'o' && "code"@[3] == 'e' && "code"@[2] == 'd' && "code"@[2] == 'd');
}

proof fn lemma_names_3()
    ensures
        mark("compaction"@) == 18639642229910,
        mark("compressionCount"@) == 17684466229916,
        mark("compressionDepth"@) == 17684418229916,
        mark("connectedClients"@) == 17360462229916,
        mark("content"@) == 16253266229907,
        mark("creatorKind"@) == 12089202289911,
        mark("cwd"@) == 16095602389903,
        mark("data"@) == 18653189950004,
        mark("deny"@) == 17688486030004,
        mark("detached"@) == 16719602030008,
        mark("details"@) == 16878062030007,
        mark("drivingSubscriber"@) == 15934058290017,
{
    reveal_strlit("compaction");
    reveal_strlit("compressionCount");
    reveal_strlit("compressionDepth");
    reveal_strlit("connectedClients");
    reveal_strlit("content");
    reveal_strlit("creatorKind");
    reveal_strlit("cwd");
    reveal_strlit("data");
    reveal_strlit("deny");
    reveal_strlit("detached");
    reveal_strlit("details");
    reveal_strlit("drivingSubscriber");
    assert("compaction"@.len() == 10 && "compaction"@[0] == 'c' && "compaction"@[1] == 'o' && "compaction"@[9] == 'n' && "compaction"@[5] == 'c' && "compaction"@[6] == 't');
    assert("compressionCount"@.len() == 16 && "compressionCount"@[0] == 'c' && "compressionCount"@[1] == 'o' && "compressionCount"@[15] == 't' && "compressionCount"@[8] == 'i' && "compressionCount"@[10] == 'n');
    assert("compressionDepth"@.len() == 16 && "compressionDepth"@[0] == 'c' && "compressionDepth"@[1] == 'o' && "compressionDepth"@[15] == 'h' && "compressionDepth"@[8] == 'i' && "compressionDepth"@[10] == 'n');
    assert("connectedClients"@.len() == 16 && "connectedClients"@[0] == 'c' && "connectedClients"@[1] == 'o' && "connectedClients"@[15] == 's' && "connectedClients"@[8] == 'd' && "connectedClients"@[10] == 'l');
    assert("content"@.len() == 7 && "content"@[0] == 'c' && "content"@[1] == 'o' && "content"@[6] == 't' && "content"@[3] == 't' && "content"@[4] == 'e');
    assert("creatorKind"@.len() == 11 && "creatorKind"@[0] == 'c' && "creatorKind"@[1] == 'r' && "creatorKind"@[10] == 'd' && "creatorKind"@[5] == 'o' && "creatorKind"@[7] == 'K');
    assert("cwd"@.len() == 3 && "cwd"@[0] == 'c' && "cwd"@[1] == 'w' && "cwd"@[2] == 'd' && "cwd"@[1] == 'w' && "cwd"@[2] == 'd');
    assert("data"@.len() == 4 && "data"@[0] == 'd' && "data"@[1] == 'a' && "data"@[3] == 'a' && "data"@[2] == 't' && "data"@[2] == 't');
    assert("deny"@.len() == 4 && "deny"@[0] == 'd' && "deny"@[1] == 'e' && "deny"@[3] == 'y' && "deny"@[2] == 'n' && "deny"@[2] == 'n');
    assert("detached"@.len() == 8 && "detached"@[0] == 'd' && "detached"@[1] == 'e' && "detached"@[7] == 'd' && "detached"@[4] == 'c' && "detached"@[5] == 'h');
    assert("details"@.len() == 7 && "details"@[0] == 'd' && "details"@[1] == 'e' && "details"@[6] == 's' && "details"@[3] == 'a' && "details"@[4] == 'i');
    assert("drivingSubscriber"@.len() == 17 && "drivingSubscriber"@[0] == 'd' && "drivingSubscriber"@[1] == 'r' && "drivingSubscriber"@[16] == 'r' && "drivingSubscriber"@[8] == 'u' && "drivingSubscriber"@[11] == 'c');
}

proof fn lemma_names_4()
    ensures
        mark("droppedFrameCount"@) == 16251666290017,
        mark("edgeKind"@) == 16860402010108,
        mark("endReason"@) == 18481242210109,
        mark("end_turn"@) == 18813242210108,
        mark("error"@) == 17851658290105,
        mark("execute"@) == 18799606410107,
        mark("focus"@) == 18799662230205,
        mark("frameCount"@) == 17814066290210,
        mark("fs"@) == 18492462310202,
        mark("full"@) == 17366834350204,
        mark("full_lineage"@) == 16244406350212,
        mark("generation"@) == 18638042030310,
{
    reveal_strlit("droppedFrameCount");
    reveal_strlit("edgeKind");
    reveal_strlit("endReason");
    reveal_strlit("end_turn");
    reveal_strlit("error");
    reveal_strlit("execute");
    reveal_strlit("focus");
    reveal_strlit("frameCount");
    reveal_strlit("fs");
    reveal_strlit("full");
    reveal_strlit("full_lineage");
    reveal_strlit("generation");
    assert("droppedFrameCount"@.len() == 17 && "droppedFrameCount"@[0] == 'd' && "droppedFrameCount"@[1] == 'r' && "droppedFrameCount"@[16] == 't' && "droppedFrameCount"@[8] == 'r' && "droppedFrameCount"@[11] == 'e');
    assert("edgeKind"@.len() == 8 && "edgeKind"@[0] == 'e' && "edgeKind"@[1] == 'd' && "edgeKind"@[7] == 'd' && "edgeKind"@[4] == 'K' && "edgeKind"@[5] == 'i');
    assert("endReason"@.len() == 9 && "endReason"@[0] == 'e' && "endReason"@[1] == 'n' && "endReason"@[8] == 'n' && "endReason"@[4] == 'e' && "endReason"@[6] == 's');
    assert("end_turn"@.len() == 8 && "end_turn"@[0] == 'e' && "end_turn"@[1] == 'n' && "end_turn"@[7] == 'n' && "end_turn"@[4] == 't' && "end_turn"@[5] == 'u');
    assert("error"@.len() == 5 && "error"@[0] == 'e' && "error"@[1] == 'r' && "error"@[4] == 'r' && "error"@[2] == 'r' && "error"@[3] == 'o');
    assert("execute"@.len() == 7 && "execute"@[0] == 'e' && "execute"@[1] == 'x' && "execute"@[6] == 'e' && "execute"@[3] == 'c' && "execute"@[4] == 'u');
    assert("focus"@.len() == 5 && "focus"@[0] == 'f' && "focus"@[1] == 'o' && "focus"@[4] == 's' && "focus"@[2] == 'c' && "focus"@[3] == 'u');
    assert("frameCount"@.len() == 10 && "frameCount"@[0] == 'f' && "frameCount"@[1] == 'r' && "frameCount"@[9] == 't' && "frameCount"@[5] == 'C' && "frameCount"@[6] == 'o');
    assert("fs"@.len() == 2 && "fs"@[0] == 'f' && "fs"@[1] == 's' && "fs"@[1] == 's' && "fs"@[1] == 's' && "fs"@[1] == 's');
    assert("full"@.len() == 4 && "full"@[0] == 'f' && "full"@[1] == 'u' && "full"@[3] == 'l' && "full"@[2] == 'l' && "full"@[2] == 'l');
    assert("full_lineage"@.len() == 12 && "full_lineage"@[0] == 'f' && "full_lineage"@[1] == 'u' && "full_lineage"@[11] == 'e' && "full_lineage"@[6] == 'i' && "full_lineage"@[8] == 'e');
    assert("generation"@.len() == 10 && "generation"@[0] == 'g' && "generation"@[1] == 'e' && "generation"@[9] == 'n' && "generation"@[5] == 'a' && "generation"@[6] == 't');
}

proof fn lemma_names_5()
    ensures
        mark("hard"@) == 18331601950404,
        mark("hard_steer"@) == 18652457950410,
        mark("heldBy"@) == 10640486030406,
        mark("hermesSessionId"@) == 16881202030415,
        mark("hermes_compression"@) == 16247642030418,
        mark("history"@) == 17853286110407,
        mark("historyDelivery"@) == 16854886110415,
        mark("historyPolicy"@) == 17857286110413,
        mark("id"@) == 16080402010502,
        mark("initialize"@) == 17358006210510,
        mark("initializeCached"@) == 10818002210516,
        mark("isDriving"@) == 16884414310509,
{
    reveal_strlit("hard");
    reveal_strlit("hard_steer");
    reveal_strlit("heldBy");
    reveal_strlit("hermesSessionId");
    reveal_strlit("hermes_compression");
    reveal_strlit("history");
    reveal_strlit("historyDelivery");
    reveal_strlit("historyPolicy");
    reveal_strlit("id");
    reveal_strlit("initialize");
    reveal_strlit("initializeCached");
    reveal_strlit("isDriving");
    assert("hard"@.len() == 4 && "hard"@[0] == 'h' && "hard"@[1] == 'a' && "hard"@[3] == 'd' && "hard"@[2] == 'r' && "hard"@[2] == 'r');
    assert("hard_steer"@.len() == 10 && "hard_steer"@[0] == 'h' && "hard_steer"@[1] == 'a' && "hard_steer"@[9] == 'r' && "hard_steer"@[5] == 's' && "hard_steer"@[6] == 't');
    assert("heldBy"@.len() == 6 && "heldBy"@[0] == 'h' && "heldBy"@[1] == 'e' && "heldBy"@[5] == 'y' && "heldBy"@[3] == 'd' && "heldBy"@[4] == 'B');
    assert("hermesSessionId"@.len() == 15 && "hermesSessionId"@[0] == 'h' && "hermesSessionId"@[1] == 'e' && "hermesSessionId"@[14] == 'd' && "hermesSessionId"@[7] == 'e' && "hermesSessionId"@[10] == 'i');
    assert("hermes_compression"@.len() == 18 && "hermes_compression"@[0] == 'h' && "hermes_compression"@[1] == 'e' && "hermes_compression"@[17] == 'n' && "hermes_compression"@[9] == 'm' && "hermes_compression"@[12] == 'e');
    assert("history"@.len() == 7 && "history"@[0] == 'h' && "history"@[1] == 'i' && "history"@[6] == 'y' && "history"@[3] == 't' && "history"@[4] == 'o');
    assert("historyDelivery"@.len() == 15 && "historyDelivery"@[0] == 'h' && "historyDelivery"@[1] == 'i' && "historyDelivery"@[14] == 'y' && "historyDelivery"@[7] == 'D' && "historyDelivery"@[10] == 'i');
    assert("historyPolicy"@.len() == 13 && "historyPolicy"@[0] == 'h' && "historyPolicy"@[1] == 'i' && "historyPolicy"@[12] == 'y' && "historyPolicy"@[6] == 'y' && "historyPolicy"@[8] == 'o');
    assert("id"@.len() == 2 && "id"@[0] == 'i' && "id"@[1] == 'd' && "id"@[1] == 'd' && "id"@[1] == 'd' && "id"@[1] == 'd');
    assert("initialize"@.len() == 10 && "initialize"@[0] == 'i' && "initialize"@[1] == 'n' && "initialize"@[9] == 'e' && "initialize"@[5] == 'a' && "initialize"@[6] == 'l');
    assert("initializeCached"@.len() == 16 && "initializeCached"@[0] == 'i' && "initializeCached"@[1] == 'n' && "initializeCached"@[15] == 'd' && "initializeCached"@[8] == 'z' && "initializeCached"@[10] == 'C');
    assert("isDriving"@.len() == 9 && "isDriving"@[0] == 'i' && "isDriving"@[1] == 's' && "isDriving"@[8] == 'g' && "isDriving"@[4] == 'i' && "isDriving"@[6] == 'i');
}

proof fn lemma_names_6()
    ensures
        mark("jsonrpc"@) == 18328398310607,
        mark("kind"@) == 17688402110704,
        mark("lastCompletedAt"@) == 18650065950815,
        mark("lastMode"@) == 17822005950808,
        mark("lastReason"@) == 15601241950810,
        mark("lastReplayReset"@) == 13206865950815,
        mark("lastSource"@) == 18809205950810,
        mark("lastStartedAt"@) == 18638065950813,
        mark("latest_segment"@) == 16572465950814,
        mark("lineageHermesSessionIds"@) == 18481262110823,
        mark("loadedSessionId"@) == 16881202230815,
        mark("message"@) == 15612406030907,
{
    reveal_strlit("jsonrpc");
    reveal_strlit("kind");
    reveal_strlit("lastCompletedAt");
    reveal_strlit("lastMode");
    reveal_strlit("lastReason");
    reveal_strlit("lastReplayReset");
    reveal_strlit("lastSource");
    reveal_strlit("lastStartedAt");
    reveal_strlit("latest_segment");
    reveal_strlit("lineageHermesSessionIds");
    reveal_strlit("loadedSessionId");
    reveal_strlit("message");
    assert("jsonrpc"@.len() == 7 && "jsonrpc"@[0] == 'j' && "jsonrpc"@[1] == 's' && "jsonrpc"@[6] == 'c' && "jsonrpc"@[3] == 'n' && "jsonrpc"@[4] == 'r');
    assert("kind"@.len() == 4 && "kind"@[0] == 'k' && "kind"@[1] == 'i' && "kind"@[3] == 'd' && "kind"@[2] == 'n' && "kind"@[2] == 'n');
    assert("lastCompletedAt"@.len() == 15 && "lastCompletedAt"@[0] == 'l' && "lastCompletedAt"@[1] == 'a' && "lastCompletedAt"@[14] == 't' && "lastCompletedAt"@[7] == 'p' && "lastCompletedAt"@[10] == 't');
    assert("lastMode"@.len() == 8 && "lastMode"@[0] == 'l' && "lastMode"@[1] == 'a' && "lastMode"@[7] == 'e' && "lastMode"@[4] == 'M' && "lastMode"@[5] == 'o');
    assert("lastReason"@.len() == 10 && "lastReason"@[0] == 'l' && "lastReason"@[1] == 'a' && "lastReason"@[9] == 'n' && "lastReason"@[5] == 'e' && "lastReason"@[6] == 'a');
    assert("lastReplayReset"@.len() == 15 && "lastReplayReset"@[0] == 'l' && "lastReplayReset"@[1] == 'a' && "lastReplayReset"@[14] == 't' && "lastReplayReset"@[7] == 'l' && "lastReplayReset"@[10] == 'R');
    assert("lastSource"@.len() == 10 && "lastSource"@[0] == 'l' && "lastSource"@[1] == 'a' && "lastSource"@[9] == 'e' && "lastSource"@[5] == 'o' && "lastSource"@[6] == 'u');
    assert("lastStartedAt"@.len() == 13 && "lastStartedAt"@[0] == 'l' && "lastStartedAt"@[1] == 'a' && "lastStartedAt"@[12] == 't' && "lastStartedAt"@[6] == 'a' && "lastStartedAt"@[8] == 't');
    assert("latest_segment"@.len() == 14 && "latest_segment"@[0] == 'l' && "latest_segment"@[1] == 'a' && "latest_segment"@[13] == 't' && "latest_segment"@[7] == 's' && "latest_segment"@[9] == 'g');
    assert("lineageHermesSessionIds"@.len() == 23 && "lineageHermesSessionIds"@[0] == 'l' && "lineageHermesSessionIds"@[1] == 'i' && "lineageHermesSessionIds"@[22] == 's' && "lineageHermesSessionIds"@[11] == 'e' && "lineageHermesSessionIds"@[15] == 's');
    assert("loadedSessionId"@.len() == 15 && "loadedSessionId"@[0] == 'l' && "loadedSessionId"@[1] == 'o' && "loadedSessionId"@[14] == 'd' && "loadedSessionId"@[7] == 'e' && "loadedSessionId"@[10] == 'i');
    assert("message"@.len() == 7 && "message"@[0] == 'm' && "message"@[1] == 'e' && "message"@[6] == 'e' && "message"@[3] == 's' && "message"@[4] == 'a');
}

proof fn lemma_names_7()
    ensures
        mark("messagesAfter"@) == 10481258030913,
        mark("messagesBefore"@) == 16252406030914,
        mark("method"@) == 17843602030906,
        mark("mode"@) == 16080406230904,
        mark("model"@) == 16240434230905,
        mark("muxId"@) == 11776402350905,
        mark("name"@) == 17527605951004,
        mark("newest_turn_first"@) == 15294066031017,
        mark("nextAmuxTurnId"@) == 18816402031014,
        mark("nextMuxId"@) == 19262002031009,
        mark("none"@) == 17688406231004,
        mark("null"@) == 17366834351004,
{
    reveal_strlit("messagesAfter");
    reveal_strlit("messagesBefore");
    reveal_strlit("method");
    reveal_strlit("mode");
    reveal_strlit("model");
    reveal_strlit("muxId");
    reveal_strlit("name");
    reveal_strlit("newest_turn_first");
    reveal_strlit("nextAmuxTurnId");
    reveal_strlit("nextMuxId");
    reveal_strlit("none");
    reveal_strlit("null");
    assert("messagesAfter"@.len() == 13 && "messagesAfter"@[0] == 'm' && "messagesAfter"@[1] == 'e' && "messagesAfter"@[12] == 'r' && "messagesAfter"@[6] == 'e' && "messagesAfter"@[8] == 'A');
    assert("messagesBefore"@.len() == 14 && "messagesBefore"@[0] == 'm' && "messagesBefore"@[1] == 'e' && "messagesBefore"@[13] == 'e' && "messagesBefore"@[7] == 's' && "messagesBefore"@[9] == 'e');
    assert("method"@.len() == 6 && "method"@[0] == 'm' && "method"@[1] == 'e' && "method"@[5] == 'd' && "method"@[3] == 'h' && "method"@[4] == 'o');
    assert("mode"@.len() == 4 && "mode"@[0] == 'm' && "mode"@[1] == 'o' && "mode"@[3] == 'e' && "mode"@[2] == 'd' && "mode"@[2] == 'd');
    assert("model"@.len() == 5 && "model"@[0] == 'm' && "model"@[1] == 'o' && "model"@[4] == 'l' && "model"@[2] == 'd' && "model"@[3] == 'e');
    assert("muxId"@.len() == 5 && "muxId"@[0] == 'm' && "muxId"@[1] == 'u' && "muxId"@[4] == 'd' && "muxId"@[2] == 'x' && "muxId"@[3] == 'I');
    assert("name"@.len() == 4 && "name"@[0] == 'n' && "name"@[1] == 'a' && "name"@[3] == 'e' && "name"@[2] == 'm' && "name"@[2] == 'm');
    assert("newest_turn_first"@.len() == 17 && "newest_turn_first"@[0] == 'n' && "newest_turn_first"@[1] == 'e' && "newest_turn_first"@[16] == 't' && "newest_turn_first"@[8] == 'u' && "newest_turn_first"@[11] == '_');
    assert("nextAmuxTurnId"@.len() == 14 && "nextAmuxTurnId"@[0] == 'n' && "nextAmuxTurnId"@[1] == 'e' && "nextAmuxTurnId"@[13] == 'd' && "nextAmuxTurnId"@[7] == 'x' && "nextAmuxTurnId"@[9] == 'u');
    assert("nextMuxId"@.len() == 9 && "nextMuxId"@[0] == 'n' && "nextMuxId"@[1] == 'e' && "nextMuxId"@[8] == 'd' && "nextMuxId"@[4] == 'M' && "nextMuxId"@[6] == 'x');
    assert("none"@.len() == 4 && "none"@[0] == 'n' && "none"@[1] == 'o' && "none"@[3] == 'e' && "none"@[2] == 'n' && "none"@[2] == 'n');
    assert("null"@.len() == 4 && "null"@[0] == 'n' && "null"@[1] == 'u' && "null"@[3] == 'l' && "null"@[2] == 'l' && "null"@[2] == 'l');
}

proof fn lemma_names_8()
    ensures
        mark("openedAt"@) == 16081266251108,
        mark("openedReplaySeq"@) == 15601254251115,
        mark("optionId"@) == 17689202251108,
        mark("options"@) == 17844462251107,
        mark("originalDriver"@) == 18326858291114,
        mark("outcome"@) == 17839606351107,
        mark("params"@) == 17518061951206,
        mark("parentHermesSessionId"@) == 18481201951221,
        mark("peerId"@) == 11771602031206,
        mark("peerName"@) == 15582806031208,
        mark("pending"@) == 16880414031207,
        mark("pendingPermissions"@) == 18491662031218,
{
    reveal_strlit("openedAt");
    reveal_strlit("openedReplaySeq");
    reveal_strlit("optionId");
    reveal_strlit("options");
    reveal_strlit("originalDriver");
    reveal_strlit("outcome");
    reveal_strlit("params");
    reveal_strlit("parentHermesSessionId");
    reveal_strlit("peerId");
    reveal_strlit("peerName");
    reveal_strlit("pending");
    reveal_strlit("pendingPermissions");
    assert("openedAt"@.len() == 8 && "openedAt"@[0] == 'o' && "openedAt"@[1] == 'p' && "openedAt"@[7] == 't' && "openedAt"@[4] == 'e' && "openedAt"@[5] == 'd');
    assert("openedReplaySeq"@.len() == 15 && "openedReplaySeq"@[0] == 'o' && "openedReplaySeq"@[1] == 'p' && "openedReplaySeq"@[14] == 'q' && "openedReplaySeq"@[7] == 'e' && "openedReplaySeq"@[10] == 'a');
    assert("optionId"@.len() == 8 && "optionId"@[0] == 'o' && "optionId"@[1] == 'p' && "optionId"@[7] == 'd' && "optionId"@[4] == 'o' && "optionId"@[5] == 'n');
    assert("options"@.len() == 7 && "options"@[0] == 'o' && "options"@[1] == 'p' && "options"@[6] == 's' && "options"@[3] == 'i' && "options"@[4] == 'o');
    assert("originalDriver"@.len() == 14 && "originalDriver"@[0] == 'o' && "originalDriver"@[1] == 'r' && "originalDriver"@[13] == 'r' && "originalDriver"@[7] == 'l' && "originalDriver"@[9] == 'r');
    assert("outcome"@.len() == 7 && "outcome"@[0] == 'o' && "outcome"@[1] == 'u' && "outcome"@[6] == 'e' && "outcome"@[3] == 'c' && "outcome"@[4] == 'o');
    assert("params"@.len() == 6 && "params"@[0] == 'p' && "params"@[1] == 'a' && "params"@[5] == 's' && "params"@[3] == 'a' && "params"@[4] == 'm');
    assert("parentHermesSessionId"@.len() == 21 && "parentHermesSessionId"@[0] == 'p' && "parentHermesSessionId"@[1] == 'a' && "parentHermesSessionId"@[20] == 'd' && "parentHermesSessionId"@[10] == 'e' && "parentHermesSessionId"@[14] == 's');
    assert("peerId"@.len() == 6 && "peerId"@[0] == 'p' && "peerId"@[1] == 'e' && "peerId"@[5] == 'd' && "peerId"@[3] == 'r' && "peerId"@[4] == 'I');
    assert("peerName"@.len() == 8 && "peerName"@[0] == 'p' && "peerName"@[1] == 'e' && "peerName"@[7] == 'e' && "peerName"@[4] == 'N' && "peerName"@[5] == 'a');
    assert("pending"@.len() == 7 && "pending"@[0] == 'p' && "pending"@[1] == 'e' && "pending"@[6] == 'g' && "pending"@[3] == 'd' && "pending"@[4] == 'i');
    assert("pendingPermissions"@.len() == 18 && "pendingPermissions"@[0] == 'p' && "pendingPermissions"@[1] == 'e' && "pendingPermissions"@[17] == 's' && "pendingPermissions"@[9] == 'r' && "pendingPermissions"@[12] == 's');
}

proof fn lemma_names_9()
    ensures
        mark("pendingRequestCount"@) == 18490866031219,
        mark("pending_only"@) == 17842886031212,
        mark("phase"@) == 18478006091205,
        mark("policy"@) == 15924486231206,
        mark("previousSegmentId"@) == 17506802291217,
        mark("prompt"@) == 18007666291206,
        mark("protocolVersion"@) == 18326842291215,
        mark("provenance"@) == 15608406291210,
        mark("proxySessionId"@) == 16892402291214,
        mark("queue"@) == 18801206351305,
        mark("queueItemId"@) == 16218802351311,
        mark("queued"@) == 16254002351306,
{
    reveal_strlit("pendingRequestCount");
    reveal_strlit("pending_only");
    reveal_strlit("phase");
    reveal_strlit("policy");
    reveal_strlit("previousSegmentId");
    reveal_strlit("prompt");
    reveal_strlit("protocolVersion");
    reveal_strlit("provenance");
    reveal_strlit("proxySessionId");
    reveal_strlit("queue");
    reveal_strlit("queueItemId");
    reveal_strlit("queued");
    assert("pendingRequestCount"@.len() == 19 && "pendingRequestCount"@[0] == 'p' && "pendingRequestCount"@[1] == 'e' && "pendingRequestCount"@[18] == 't' && "pendingRequestCount"@[9] == 'q' && "pendingRequestCount"@[12] == 's');
    assert("pending_only"@.len() == 12 && "pending_only"@[0] == 'p' && "pending_only"@[1] == 'e' && "pending_only"@[11] == 'y' && "pending_only"@[6] == 'g' && "pending_only"@[8] == 'o');
    assert("phase"@.len() == 5 && "phase"@[0] == 'p' && "phase"@[1] == 'h' && "phase"@[4] == 'e' && "phase"@[2] == 'a' && "phase"@[3] == 's');
    assert("policy"@.len() == 6 && "policy"@[0] == 'p' && "policy"@[1] == 'o' && "policy"@[5] == 'y' && "policy"@[3] == 'i' && "policy"@[4] == 'c');
    assert("previousSegmentId"@.len() == 17 && "previousSegmentId"@[0] == 'p' && "previousSegmentId"@[1] == 'r' && "previousSegmentId"@[16] == 'd' && "previousSegmentId"@[8] == 'S' && "previousSegmentId"@[11] == 'm');
    assert("prompt"@.len() == 6 && "prompt"@[0] == 'p' && "prompt"@[1] == 'r' && "prompt"@[5] == 't' && "prompt"@[3] == 'm' && "prompt"@[4] == 'p');
    assert("protocolVersion"@.len() == 15 && "protocolVersion"@[0] == 'p' && "protocolVersion"@[1] == 'r' && "protocolVersion"@[14] == 'n' && "protocolVersion"@[7] == 'l' && "protocolVersion"@[10] == 'r');
    assert("provenance"@.len() == 10 && "provenance"@[0] == 'p' && "provenance"@[1] == 'r' && "provenance"@[9] == 'e' && "provenance"@[5] == 'n' && "provenance"@[6] == 'a');
    assert("proxySessionId"@.len() == 14 && "proxySessionId"@[0] == 'p' && "proxySessionId"@[1] == 'r' && "proxySessionId"@[13] == 'd' && "proxySessionId"@[7] == 's' && "proxySessionId"@[9] == 'i');
    assert("queue"@.len() == 5 && "queue"@[0] == 'q' && "queue"@[1] == 'u' && "queue"@[4] == 'e' && "queue"@[2] == 'e' && "queue"@[3] == 'u');
    assert("queueItemId"@.len() == 11 && "queueItemId"@[0] == 'q' && "queueItemId"@[1] == 'u' && "queueItemId"@[10] == 'd' && "queueItemId"@[5] == 'I' && "queueItemId"@[7] == 'e');
    assert("queued"@.len() == 6 && "queued"@[0] == 'q' && "queued"@[1] == 'u' && "queued"@[5] == 'd' && "queued"@[3] == 'u' && "queued"@[4] == 'e');
}

proof fn lemma_names_10()
    ensures
        mark("reason"@) == 17852442031406,
        mark("recordedAt"@) == 16240466031410,
        mark("reject_once"@) == 17853206031411,
        mark("removed"@) == 18969202031407,
        mark("removedBy"@) == 16094886031409,
        mark("replayBoundarySeq"@) == 15614054031417,
        mark("replayGeneration"@) == 18328442031416,
        mark("replayLogLen"@) == 16541242031412,
        mark("replayLogUpdateFramesByAcpSessionId"@) == 10478002031435,
        mark("replayOrder"@) == 18337258031411,
        mark("replaySeq"@) == 13358054031409,
        mark("requestId"@) == 18641202031409,
{
    reveal_strlit("reason");
    reveal_strlit("recordedAt");
    reveal_strlit("reject_once");
    reveal_strlit("removed");
    reveal_strlit("removedBy");
    reveal_strlit("replayBoundarySeq");
    reveal_strlit("replayGeneration");
    reveal_strlit("replayLogLen");
    reveal_strlit("replayLogUpdateFramesByAcpSessionId");
    reveal_strlit("replayOrder");
    reveal_strlit("replaySeq");
    reveal_strlit("requestId");
    assert("reason"@.len() == 6 && "reason"@[0] == 'r' && "reason"@[1] == 'e' && "reason"@[5] == 'n' && "reason"@[3] == 's' && "reason"@[4] == 'o');
    assert("recordedAt"@.len() == 10 && "recordedAt"@[0] == 'r' && "recordedAt"@[1] == 'e' && "recordedAt"@[9] == 't' && "recordedAt"@[5] == 'd' && "recordedAt"@[6] == 'e');
    assert("reject_once"@.len() == 11 && "reject_once"@[0] == 'r' && "reject_once"@[1] == 'e' && "reject_once"@[10] == 'e' && "reject_once"@[5] == 't' && "reject_once"@[7] == 'o');
    assert("removed"@.len() == 7 && "removed"@[0] == 'r' && "removed"@[1] == 'e' && "removed"@[6] == 'd' && "removed"@[3] == 'o' && "removed"@[4] == 'v');
    assert("removedBy"@.len() == 9 && "removedBy"@[0] == 'r' && "removedBy"@[1] == 'e' && "removedBy"@[8] == 'y' && "removedBy"@[4] == 'v' && "removedBy"@[6] == 'd');
    assert("replayBoundarySeq"@.len() == 17 && "replayBoundarySeq"@[0] == 'r' && "replayBoundarySeq"@[1] == 'e' && "replayBoundarySeq"@[16] == 'q' && "replayBoundarySeq"@[8] == 'u' && "replayBoundarySeq"@[11] == 'a');
    assert("replayGeneration"@.len() == 16 && "replayGeneration"@[0] == 'r' && "replayGeneration"@[1] == 'e' && "replayGeneration"@[15] == 'n' && "replayGeneration"@[8] == 'n' && "replayGeneration"@[10] == 'r');
    assert("replayLogLen"@.len() == 12 && "replayLogLen"@[0] == 'r' && "replayLogLen"@[1] == 'e' && "replayLogLen"@[11] == 'n' && "replayLogLen"@[6] == 'L' && "replayLogLen"@[8] == 'g');
    assert("replayLogUpdateFramesByAcpSessionId"@.len() == 35 && "replayLogUpdateFramesByAcpSessionId"@[0] == 'r' && "replayLogUpdateFramesByAcpSessionId"@[1] == 'e' && "replayLogUpdateFramesByAcpSessionId"@[34] == 'd' && "replayLogUpdateFramesByAcpSessionId"@[17] == 'a' && "replayLogUpdateFramesByAcpSessionId"@[23] == 'A');
    assert("replayOrder"@.len() == 11 && "replayOrder"@[0] == 'r' && "replayOrder"@[1] == 'e' && "replayOrder"@[10] == 'r' && "replayOrder"@[5] == 'y' && "replayOrder"@[7] == 'r');
    assert("replaySeq"@.len() == 9 && "replaySeq"@[0] == 'r' && "replaySeq"@[1] == 'e' && "replaySeq"@[8] == 'q' && "replaySeq"@[4] == 'a' && "replaySeq"@[6] == 'S');
    assert("requestId"@.len() == 9 && "requestId"@[0] == 'r' && "requestId"@[1] == 'e' && "requestId"@[8] == 'd' && "requestId"@[4] == 'e' && "requestId"@[6] == 't');
}

proof fn lemma_names_11()
    ensures
        mark("requestMethod"@) == 16253202031413,
        mark("requestParams"@) == 15613262031413,
        mark("resolvedBy"@) == 16254886031410,
        mark("response"@) == 17689206031408,
        mark("result"@) == 17374066031406,
        mark("retainedFrameCount"@) == 16251666031418,
        mark("role"@) == 17366806231404,
        mark("roomId"@) == 11767602231406,
        mark("rootHermesSessionId"@) == 18492402231419,
        mark("segmentId"@) == 18641202031509,
        mark("segments"@) == 17681262031508,
        mark("selfPeer"@) == 16224458031508,
{
    reveal_strlit("requestMethod");
    reveal_strlit("requestParams");
    reveal_strlit("resolvedBy");
    reveal_strlit("response");
    reveal_strlit("result");
    reveal_strlit("retainedFrameCount");
    reveal_strlit("role");
    reveal_strlit("roomId");
    reveal_strlit("rootHermesSessionId");
    reveal_strlit("segmentId");
    reveal_strlit("segments");
    reveal_strlit("selfPeer");
    assert("requestMethod"@.len() == 13 && "requestMethod"@[0] == 'r' && "requestMethod"@[1] == 'e' && "requestMethod"@[12] == 'd' && "requestMethod"@[6] == 't' && "requestMethod"@[8] == 'e');
    assert("requestParams"@.len() == 13 && "requestParams"@[0] == 'r' && "requestParams"@[1] == 'e' && "requestParams"@[12] == 's' && "requestParams"@[6] == 't' && "requestParams"@[8] == 'a');
    assert("resolvedBy"@.len() == 10 && "resolvedBy"@[0] == 'r' && "resolvedBy"@[1] == 'e' && "resolvedBy"@[9] == 'y' && "resolvedBy"@[5] == 'v' && "resolvedBy"@[6] == 'e');
    assert("response"@.len() == 8 && "response"@[0] == 'r' && "response"@[1] == 'e' && "response"@[7] == 'e' && "response"@[4] == 'o' && "response"@[5] == 'n');
    assert("result"@.len() == 6 && "result"@[0] == 'r' && "result"@[1] == 'e' && "result"@[5] == 't' && "result"@[3] == 'u' && "result"@[4] == 'l');
    assert("retainedFrameCount"@.len() == 18 && "retainedFrameCount"@[0] == 'r' && "retainedFrameCount"@[1] == 'e' && "retainedFrameCount"@[17] == 't' && "retainedFrameCount"@[9] == 'r' && "retainedFrameCount"@[12] == 'e');
    assert("role"@.len() == 4 && "role"@[0] == 'r' && "role"@[1] == 'o' && "role"@[3] == 'e' && "role"@[2] == 'l' && "role"@[2] == 'l');
    assert("roomId"@.len() == 6 && "roomId"@[0] == 'r' && "roomId"@[1] == 'o' && "roomId"@[5] == 'd' && "roomId"@[3] == 'm' && "roomId"@[4] == 'I');
    assert("rootHermesSessionId"@.len() == 19 && "rootHermesSessionId"@[0] == 'r' && "rootHermesSessionId"@[1] == 'o' && "rootHermesSessionId"@[18] == 'd' && "rootHermesSessionId"@[9] == 's' && "rootHermesSessionId"@[12] == 's');
    assert("segmentId"@.len() == 9 && "segmentId"@[0] == 's' && "segmentId"@[1] == 'e' && "segmentId"@[8] == 'd' && "segmentId"@[4] == 'e' && "segmentId"@[6] == 't');
    assert("segments"@.len() == 8 && "segments"@[0] == 's' && "segments"@[1] == 'e' && "segments"@[7] == 's' && "segments"@[4] == 'e' && "segments"@[5] == 'n');
    assert("selfPeer"@.len() == 8 && "selfPeer"@[0] == 's' && "selfPeer"@[1] == 'e' && "selfPeer"@[7] == 'r' && "selfPeer"@[4] == 'P' && "selfPeer"@[5] == 'e');
}

proof fn lemma_names_12()
    ensures
        mark("sentBy"@) == 10653286031506,
        mark("seq"@) == 18161254031503,
        mark("session"@) == 16892442031507,
        mark("sessionCapabilities"@) == 16890062031519,
        mark("sessionCount"@) == 17848466031512,
        mark("sessionId"@) == 17684402031509,
        mark("sessionKind"@) == 12089202031511,
        mark("sessions"@) == 17844462031508,
        mark("snapshot"@) == 16732466211508,
        mark("source"@) == 15931606231506,
        mark("status"@) == 18813262331506,
        mark("steer"@) == 16241258331505,
{
    reveal_strlit("sentBy");
    reveal_strlit("seq");
    reveal_strlit("session");
    reveal_strlit("sessionCapabilities");
    reveal_strlit("sessionCount");
    reveal_strlit("sessionId");
    reveal_strlit("sessionKind");
    reveal_strlit("sessions");
    reveal_strlit("snapshot");
    reveal_strlit("source");
    reveal_strlit("status");
    reveal_strlit("steer");
    assert("sentBy"@.len() == 6 && "sentBy"@[0] == 's' && "sentBy"@[1] == 'e' && "sentBy"@[5] == 'y' && "sentBy"@[3] == 't' && "sentBy"@[4] == 'B');
    assert("seq"@.len() == 3 && "seq"@[0] == 's' && "seq"@[1] == 'e' && "seq"@[2] == 'q' && "seq"@[1] == 'e' && "seq"@[2] == 'q');
    assert("session"@.len() == 7 && "session"@[0] == 's' && "session"@[1] == 'e' && "session"@[6] == 'n' && "session"@[3] == 's' && "session"@[4] == 'i');
    assert("sessionCapabilities"@.len() == 19 && "sessionCapabilities"@[0] == 's' && "sessionCapabilities"@[1] == 'e' && "sessionCapabilities"@[18] == 's' && "sessionCapabilities"@[9] == 'p' && "sessionCapabilities"@[12] == 'i');
    assert("sessionCount"@.len() == 12 && "sessionCount"@[0] == 's' && "sessionCount"@[1] == 'e' && "sessionCount"@[11] == 't' && "sessionCount"@[6] == 'n' && "sessionCount"@[8] == 'o');
    assert("sessionId"@.len() == 9 && "sessionId"@[0] == 's' && "sessionId"@[1] == 'e' && "sessionId"@[8] == 'd' && "sessionId"@[4] == 'i' && "sessionId"@[6] == 'n');
    assert("sessionKind"@.len() == 11 && "sessionKind"@[0] == 's' && "sessionKind"@[1] == 'e' && "sessionKind"@[10] == 'd' && "sessionKind"@[5] == 'o' && "sessionKind"@[7] == 'K');
    assert("sessions"@.len() == 8 && "sessions"@[0] == 's' && "sessions"@[1] == 'e' && "sessions"@[7] == 's' && "sessions"@[4] == 'i' && "sessions"@[5] == 'o');
    assert("snapshot"@.len() == 8 && "snapshot"@[0] == 's' && "snapshot"@[1] == 'n' && "snapshot"@[7] == 't' && "snapshot"@[4] == 's' && "snapshot"@[5] == 'h');
    assert("source"@.len() == 6 && "source"@[0] == 's' && "source"@[1] == 'o' && "source"@[5] == 'e' && "source"@[3] == 'r' && "source"@[4] == 'c');
    assert("status"@.len() == 6 && "status"@[0] == 's' && "status"@[1] == 't' && "status"@[5] == 's' && "status"@[3] == 't' && "status"@[4] == 'u');
    assert("steer"@.len() == 5 && "steer"@[0] == 's' && "steer"@[1] == 't' && "steer"@[4] == 'r' && "steer"@[2] == 'e' && "steer"@[3] == 'e');
}

proof fn lemma_names_13()
    ensures
        mark("stopReason"@) == 15601242331510,
        mark("stream"@) == 15601238331506,
        mark("submitted"@) == 18644402351509,
        mark("subprocessDead"@) == 18481202351514,
        mark("subscriberCount"@) == 10798866351515,
        mark("subscribers"@) == 15771662351511,
        mark("successorSegmentId"@) == 17506802351518,
        mark("summary"@) == 15607686351507,
        mark("supersedesTurnId"@) == 13521202351516,
        mark("terminal"@) == 17684434031608,
        mark("text"@) == 19296466031604,
        mark("title"@) == 17373206111605,
{
    reveal_strlit("stopReason");
    reveal_strlit("stream");
    reveal_strlit("submitted");
    reveal_strlit("subprocessDead");
    reveal_strlit("subscriberCount");
    reveal_strlit("subscribers");
    reveal_strlit("successorSegmentId");
    reveal_strlit("summary");
    reveal_strlit("supersedesTurnId");
    reveal_strlit("terminal");
    reveal_strlit("text");
    reveal_strlit("title");
    assert("stopReason"@.len() == 10 && "stopReason"@[0] == 's' && "stopReason"@[1] == 't' && "stopReason"@[9] == 'n' && "stopReason"@[5] == 'e' && "stopReason"@[6] == 'a');
    assert("stream"@.len() == 6 && "stream"@[0] == 's' && "stream"@[1] == 't' && "stream"@[5] == 'm' && "stream"@[3] == 'e' && "stream"@[4] == 'a');
    assert("submitted"@.len() == 9 && "submitted"@[0] == 's' && "submitted"@[1] == 'u' && "submitted"@[8] == 'd' && "submitted"@[4] == 'i' && "submitted"@[6] == 't');
    assert("subprocessDead"@.len() == 14 && "subprocessDead"@[0] == 's' && "subprocessDead"@[1] == 'u' && "subprocessDead"@[13] == 'd' && "subprocessDead"@[7] == 'e' && "subprocessDead"@[9] == 's');
    assert("subscriberCount"@.len() == 15 && "subscriberCount"@[0] == 's' && "subscriberCount"@[1] == 'u' && "subscriberCount"@[14] == 't' && "subscriberCount"@[7] == 'b' && "subscriberCount"@[10] == 'C');
    assert("subscribers"@.len() == 11 && "subscribers"@[0] == 's' && "subscribers"@[1] == 'u' && "subscribers"@[10] == 's' && "subscribers"@[5] == 'r' && "subscribers"@[7] == 'b');
    assert("successorSegmentId"@.len() == 18 && "successorSegmentId"@[0] == 's' && "successorSegmentId"@[1] == 'u' && "successorSegmentId"@[17] == 'd' && "successorSegmentId"@[9] == 'S' && "successorSegmentId"@[12] == 'm');
    assert("summary"@.len() == 7 && "summary"@[0] == 's' && "summary"@[1] == 'u' && "summary"@[6] == 'y' && "summary"@[3] == 'm' && "summary"@[4] == 'a');
    assert("supersedesTurnId"@.len() == 16 && "supersedesTurnId"@[0] == 's' && "supersedesTurnId"@[1] == 'u' && "supersedesTurnId"@[15] == 'd' && "supersedesTurnId"@[8] == 'e' && "supersedesTurnId"@[10] == 'T');
    assert("terminal"@.len() == 8 && "terminal"@[0] == 't' && "terminal"@[1] == 'e' && "terminal"@[7] == 'l' && "terminal"@[4] == 'i' && "terminal"@[5] == 'n');
    assert("text"@.len() == 4 && "text"@[0] == 't' && "text"@[1] == 'e' && "text"@[3] == 't' && "text"@[2] == 'x' && "text"@[2] == 'x');
    assert("title"@.len() == 5 && "title"@[0] == 't' && "title"@[1] == 'i' && "title"@[4] == 'e' && "title"@[2] == 't' && "title"@[3] == 'l');
}

proof fn lemma_names_14()
    ensures
        mark("tokensApproxAfter"@) == 19290058231617,
        mark("tokensApproxBefore"@) == 10651606231618,
        mark("toolCall"@) == 15574034231608,
        mark("toolCallId"@) == 17358002231610,
        mark("toolName"@) == 15582806231608,
        mark("ttlPending"@) == 16088414331610,
        mark("type"@) == 18010006431604,
        mark("unbounded"@) == 16094002211709,
        mark("unqueued"@) == 18801202211708,
        mark("update"@) == 18638006251706,
        mark("updatedAt"@) == 16093266251709,
        mark("version"@) == 16892442031807,
{
    reveal_strlit("tokensApproxAfter");
    reveal_strlit("tokensApproxBefore");
    reveal_strlit("toolCall");
    reveal_strlit("toolCallId");
    reveal_strlit("toolName");
    reveal_strlit("ttlPending");
    reveal_strlit("type");
    reveal_strlit("unbounded");
    reveal_strlit("unqueued");
    reveal_strlit("update");
    reveal_strlit("updatedAt");
    reveal_strlit("version");
    assert("tokensApproxAfter"@.len() == 17 && "tokensApproxAfter"@[0] == 't' && "tokensApproxAfter"@[1] == 'o' && "tokensApproxAfter"@[16] == 'r' && "tokensApproxAfter"@[8] == 'p' && "tokensApproxAfter"@[11] == 'x');
    assert("tokensApproxBefore"@.len() == 18 && "tokensApproxBefore"@[0] == 't' && "tokensApproxBefore"@[1] == 'o' && "tokensApproxBefore"@[17] == 'e' && "tokensApproxBefore"@[9] == 'r' && "tokensApproxBefore"@[12] == 'B');
    assert("toolCall"@.len() == 8 && "toolCall"@[0] == 't' && "toolCall"@[1] == 'o' && "toolCall"@[7] == 'l' && "toolCall"@[4] == 'C' && "toolCall"@[5] == 'a');
    assert("toolCallId"@.len() == 10 && "toolCallId"@[0] == 't' && "toolCallId"@[1] == 'o' && "toolCallId"@[9] == 'd' && "toolCallId"@[5] == 'a' && "toolCallId"@[6] == 'l');
    assert("toolName"@.len() == 8 && "toolName"@[0] == 't' && "toolName"@[1] == 'o' && "toolName"@[7] == 'e' && "toolName"@[4] == 'N' && "toolName"@[5] == 'a');
    assert("ttlPending"@.len() == 10 && "ttlPending"@[0] == 't' && "ttlPending"@[1] == 't' && "ttlPending"@[9] == 'g' && "ttlPending"@[5] == 'n' && "ttlPending"@[6] == 'd');
    assert("type"@.len() == 4 && "type"@[0] == 't' && "type"@[1] == 'y' && "type"@[3] == 'e' && "type"@[2] == 'p' && "type"@[2] == 'p');
    assert("unbounded"@.len() == 9 && "unbounded"@[0] == 'u' && "unbounded"@[1] == 'n' && "unbounded"@[8] == 'd' && "unbounded"@[4] == 'u' && "unbounded"@[6] == 'd');
    assert("unqueued"@.len() == 8 && "unqueued"@[0] == 'u' && "unqueued"@[1] == 'n' && "unqueued"@[7] == 'd' && "unqueued"@[4] == 'e' && "unqueued"@[5] == 'u');
    assert("update"@.len() == 6 && "update"@[0] == 'u' && "update"@[1] == 'p' && "update"@[5] == 'e' && "update"@[3] == 'a' && "update"@[4] == 't');
    assert("updatedAt"@.len() == 9 && "updatedAt"@[0] == 'u' && "updatedAt"@[1] == 'p' && "updatedAt"@[8] == 't' && "updatedAt"@[4] == 't' && "updatedAt"@[6] == 'd');
    assert("version"@.len() == 7 && "version"@[0] == 'v' && "version"@[1] == 'e' && "version"@[6] == 'n' && "version"@[3] == 's' && "version"@[4] == 'i');
}

proof fn lemma_names_15()
    ensures
        mark("session/attach"@) == 18598018031514,
        mark("session/detach"@) == 16198018031514,
        mark("session/new"@) == 7609278031511,
        mark("session/load"@) == 17368402031512,
        mark("session/list"@) == 17368466031512,
        mark("session/prompt"@) == 18278066031514,
        mark("session/update"@) == 17958006031514,
        mark("session/cancel"@) == 15558034031514,
        mark("amux/steer_active_turn"@) == 16878042189722,
        mark("amux/queue_prompt"@) == 18014066189717,
        mark("amux/unqueue_prompt"@) == 15281266189719,
        mark("$/cancel_request"@) == 16236464943616,
{
    reveal_strlit("session/attach");
    reveal_strlit("session/detach");
    reveal_strlit("session/new");
    reveal_strlit("session/load");
    reveal_strlit("session/list");
    reveal_strlit("session/prompt");
    reveal_strlit("session/update");
    reveal_strlit("session/cancel");
    reveal_strlit("amux/steer_active_turn");
    reveal_strlit("amux/queue_prompt");
    reveal_strlit("amux/unqueue_prompt");
    reveal_strlit("$/cancel_request");
    assert("session/attach"@.len() == 14 && "session/attach"@[0] == 's' && "session/attach"@[1] == 'e' && "session/attach"@[13] == 'h' && "session/attach"@[7] == '/' && "session/attach"@[9] == 't');
    assert("session/detach"@.len() == 14 && "session/detach"@[0] == 's' && "session/detach"@[1] == 'e' && "session/detach"@[13] == 'h' && "session/detach"@[7] == '/' && "session/detach"@[9] == 'e');
    assert("session/new"@.len() == 11 && "session/new"@[0] == 's' && "session/new"@[1] == 'e' && "session/new"@[10] == 'w' && "session/new"@[5] == 'o' && "session/new"@[7] == '/');
    assert("session/load"@.len() == 12 && "session/load"@[0] == 's' && "session/load"@[1] == 'e' && "session/load"@[11] == 'd' && "session/load"@[6] == 'n' && "session/load"@[8] == 'l');
    assert("session/list"@.len() == 12 && "session/list"@[0] == 's' && "session/list"@[1] == 'e' && "session/list"@[11] == 't' && "session/list"@[6] == 'n' && "session/list"@[8] == 'l');
    assert("session/prompt"@.len() == 14 && "session/prompt"@[0] == 's' && "session/prompt"@[1] == 'e' && "session/prompt"@[13] == 't' && "session/prompt"@[7] == '/' && "session/prompt"@[9] == 'r');
    assert("session/update"@.len() == 14 && "session/update"@[0] == 's' && "session/update"@[1] == 'e' && "session/update"@[13] == 'e' && "session/update"@[7] == '/' && "session/update"@[9] == 'p');
    assert("session/cancel"@.len() == 14 && "session/cancel"@[0] == 's' && "session/cancel"@[1] == 'e' && "session/cancel"@[13] == 'l' && "session/cancel"@[7] == '/' && "session/cancel"@[9] == 'a');
    assert("amux/steer_active_turn"@.len() == 22 && "amux/steer_active_turn"@[0] == 'a' && "amux/steer_active_turn"@[1] == 'm' && "amux/steer_active_turn"@[21] == 'n' && "amux/steer_active_turn"@[11] == 'a' && "amux/steer_active_turn"@[14] == 'i');
    assert("amux/queue_prompt"@.len() == 17 && "amux/queue_prompt"@[0] == 'a' && "amux/queue_prompt"@[1] == 'm' && "amux/queue_prompt"@[16] == 't' && "amux/queue_prompt"@[8] == 'u' && "amux/queue_prompt"@[11] == 'p');
    assert("amux/unqueue_prompt"@.len() == 19 && "amux/unqueue_prompt"@[0] == 'a' && "amux/unqueue_prompt"@[1] == 'm' && "amux/unqueue_prompt"@[18] == 't' && "amux/unqueue_prompt"@[9] == 'e' && "amux/unqueue_prompt"@[12] == '_');
    assert("$/cancel_request"@.len() == 16 && "$/cancel_request"@[0] == '$' && "$/cancel_request"@[1] == '/' && "$/cancel_request"@[15] == 't' && "$/cancel_request"@[8] == '_' && "$/cancel_request"@[10] == 'e');
}

proof fn lemma_names_16()
    ensures
        mark("amux/cancel_active_turn"@) == 16876442189723,
        mark("session/request_permission"@) == 16252442031526,
        mark("amux/turn_started"@) == 18648402189717,
        mark("amux/turn_complete"@) == 17516406189718,
{
    reveal_strlit("amux/cancel_active_turn");
    reveal_strlit("session/request_permission");
    reveal_strlit("amux/turn_started");
    reveal_strlit("amux/turn_complete");
    assert("amux/cancel_active_turn"@.len() == 23 && "amux/cancel_active_turn"@[0] == 'a' && "amux/cancel_active_turn"@[1] == 'm' && "amux/cancel_active_turn"@[22] == 'n' && "amux/cancel_active_turn"@[11] == '_' && "amux/cancel_active_turn"@[15] == 'i');
    assert("session/request_permission"@.len() == 26 && "session/request_permission"@[0] == 's' && "session/request_permission"@[1] == 'e' && "session/request_permission"@[25] == 'n' && "session/request_permission"@[13] == 's' && "session/request_permission"@[17] == 'e');
    assert("amux/turn_started"@.len() == 17 && "amux/turn_started"@[0] == 'a' && "amux/turn_started"@[1] == 'm' && "amux/turn_started"@[16] == 'd' && "amux/turn_started"@[8] == 'n' && "amux/turn_started"@[11] == 't');
    assert("amux/turn_complete"@.len() == 18 && "amux/turn_complete"@[0] == 'a' && "amux/turn_complete"@[1] == 'm' && "amux/turn_complete"@[17] == 'e' && "amux/turn_complete"@[9] == '_' && "amux/turn_complete"@[12] == 'm');
}

/// No two of the names are the same: each has a mark of its own.
pub proof fn lemma_names()
    ensures
        mark("_invocation"@) == 18639642109511,
        mark("_meta"@) == 18641190189505,
        mark("accepted"@) == 18650001989708,
        mark("acpSessionId"@) == 17852401989712,
        mark("acp_session_id_changed"@) == 15276401989722,
        mark("active"@) == 18964405989706,
        mark("activeAmuxTurnId"@) == 13534001989716,
        mark("activeSegmentId"@) == 16241201989715,
        mark("activeTurn"@) == 13521241989710,
        mark("activeTurnMuxId"@) == 12414001989715,
        mark("afterMessageId"@) == 15612402049714,
        mark("after_message"@) == 18487606049713,
        mark("agentCapabilities"@) == 17358062069717,
        mark("agentCwd"@) == 10813202069708,
        mark("agentInfo"@) == 17693246069709,
        mark("agent_message_chunk"@) == 16252430069719,
        mark("allow_once"@) == 17836406169710,
        mark("amux"@) == 18814082189704,
        mark("amuxTurnId"@) == 18334002189710,
        mark("appliedHistoryDelivery"@) == 10969286249722,
        mark("appliedReplayOrder"@) == 19450058249718,
        mark("backfill"@) == 16882033949808,
        mark("block"@) == 15929230169805,
        mark("busy"@) == 18492486349804,
        mark("cachedSessionId"@) == 16881201949915,
        mark("cancelledBy"@) == 16246885949911,
        mark("chosenOptionId"@) == 16890002089914,
        mark("chronological"@) == 16566834089913,
        mark("client"@) == 17681266169906,
        mark("clientCapabilities"@) == 17358062169918,
        mark("clientId"@) == 18648402169908,
        mark("clientInfo"@) == 11773246169910,
        mark("client_tool_blocked"@) == 15769202169919,
        mark("closedAt"@) == 16081266169908,
        mark("closedReplaySeq"@) == 15601254169915,
        mark("code"@) == 16080406229904,
        mark("compaction"@) == 18639642229910,
        mark("compressionCount"@) == 17684466229916,
        mark("compressionDepth"@) == 17684418229916,
        mark("connectedClients"@) == 17360462229916,
        mark("content"@) == 16253266229907,
        mark("creatorKind"@) == 12089202289911,
        mark("cwd"@) == 16095602389903,
        mark("data"@) == 18653189950004,
        mark("deny"@) == 17688486030004,
        mark("detached"@) == 16719602030008,
        mark("details"@) == 16878062030007,
        mark("drivingSubscriber"@) == 15934058290017,
        mark("droppedFrameCount"@) == 16251666290017,
        mark("edgeKind"@) == 16860402010108,
        mark("endReason"@) == 18481242210109,
        mark("end_turn"@) == 18813242210108,
        mark("error"@) == 17851658290105,
        mark("execute"@) == 18799606410107,
        mark("focus"@) == 18799662230205,
        mark("frameCount"@) == 17814066290210,
        mark("fs"@) == 18492462310202,
        mark("full"@) == 17366834350204,
        mark("full_lineage"@) == 16244406350212,
        mark("generation"@) == 18638042030310,
        mark("hard"@) == 18331601950404,
        mark("hard_steer"@) == 18652457950410,
        mark("heldBy"@) == 10640486030406,
        mark("hermesSessionId"@) == 16881202030415,
        mark("hermes_compression"@) == 16247642030418,
        mark("history"@) == 17853286110407,
        mark("historyDelivery"@) == 16854886110415,
        mark("historyPolicy"@) == 17857286110413,
        mark("id"@) == 16080402010502,
        mark("initialize"@) == 17358006210510,
        mark("initializeCached"@) == 10818002210516,
        mark("isDriving"@) == 16884414310509,
        mark("jsonrpc"@) == 18328398310607,
        mark("kind"@) == 17688402110704,
        mark("lastCompletedAt"@) == 18650065950815,
        mark("lastMode"@) == 17822005950808,
        mark("lastReason"@) == 15601241950810,
        mark("lastReplayReset"@) == 13206865950815,
        mark("lastSource"@) == 18809205950810,
        mark("lastStartedAt"@) == 18638065950813,
        mark("latest_segment"@) == 16572465950814,
        mark("lineageHermesSessionIds"@) == 18481262110823,
        mark("loadedSessionId"@) == 16881202230815,
        mark("message"@) == 15612406030907,
        mark("messagesAfter"@) == 10481258030913,
        mark("messagesBefore"@) == 16252406030914,
        mark("method"@) == 17843602030906,
        mark("mode"@) == 16080406230904,
        mark("model"@) == 16240434230905,
        mark("muxId"@) == 11776402350905,
        mark("name"@) == 17527605951004,
        mark("newest_turn_first"@) == 15294066031017,
        mark("nextAmuxTurnId"@) == 18816402031014,
        mark("nextMuxId"@) == 19262002031009,
        mark("none"@) == 17688406231004,
        mark("null"@) == 17366834351004,
        mark("openedAt"@) == 16081266251108,
        mark("openedReplaySeq"@) == 15601254251115,
        mark("optionId"@) == 17689202251108,
        mark("options"@) == 17844462251107,
        mark("originalDriver"@) == 18326858291114,
        mark("outcome"@) == 17839606351107,
        mark("params"@) == 17518061951206,
        mark("parentHermesSessionId"@) == 18481201951221,
        mark("peerId"@) == 11771602031206,
        mark("peerName"@) == 15582806031208,
        mark("pending"@) == 16880414031207,
        mark("pendingPermissions"@) == 18491662031218,
        mark("pendingRequestCount"@) == 18490866031219,
        mark("pending_only"@) == 17842886031212,
        mark("phase"@) == 18478006091205,
        mark("policy"@) == 15924486231206,
        mark("previousSegmentId"@) == 17506802291217,
        mark("prompt"@) == 18007666291206,
        mark("protocolVersion"@) == 18326842291215,
        mark("provenance"@) == 15608406291210,
        mark("proxySessionId"@) == 16892402291214,
        mark("queue"@) == 18801206351305,
        mark("queueItemId"@) == 16218802351311,
        mark("queued"@) == 16254002351306,
        mark("reason"@) == 17852442031406,
        mark("recordedAt"@) == 16240466031410,
        mark("reject_once"@) == 17853206031411,
        mark("removed"@) == 18969202031407,
        mark("removedBy"@) == 16094886031409,
        mark("replayBoundarySeq"@) == 15614054031417,
        mark("replayGeneration"@) == 18328442031416,
        mark("replayLogLen"@) == 16541242031412,
        mark("replayLogUpdateFramesByAcpSessionId"@) == 10478002031435,
        mark("replayOrder"@) == 18337258031411,
        mark("replaySeq"@) == 13358054031409,
        mark("requestId"@) == 18641202031409,
        mark("requestMethod"@) == 16253202031413,
        mark("requestParams"@) == 15613262031413,
        mark("resolvedBy"@) == 16254886031410,
        mark("response"@) == 17689206031408,
        mark("result"@) == 17374066031406,
        mark("retainedFrameCount"@) == 16251666031418,
        mark("role"@) == 17366806231404,
        mark("roomId"@) == 11767602231406,
        mark("rootHermesSessionId"@) == 18492402231419,
        mark("segmentId"@) == 18641202031509,
        mark("segments"@) == 17681262031508,
        mark("selfPeer"@) == 16224458031508,
        mark("sentBy"@) == 10653286031506,
        mark("seq"@) == 18161254031503,
        mark("session"@) == 16892442031507,
        mark("sessionCapabilities"@) == 16890062031519,
        mark("sessionCount"@) == 17848466031512,
        mark("sessionId"@) == 17684402031509,
        mark("sessionKind"@) == 12089202031511,
        mark("sessions"@) == 17844462031508,
        mark("snapshot"@) == 16732466211508,
        mark("source"@) == 15931606231506,
        mark("status"@) == 18813262331506,
        mark("steer"@) == 16241258331505,
        mark("stopReason"@) == 15601242331510,
        mark("stream"@) == 15601238331506,
        mark("submitted"@) == 18644402351509,
        mark("subprocessDead"@) == 18481202351514,
        mark("subscriberCount"@) == 10798866351515,
        mark("subscribers"@) == 15771662351511,
        mark("successorSegmentId"@) == 17506802351518,
        mark("summary"@) == 15607686351507,
        mark("supersedesTurnId"@) == 13521202351516,
        mark("terminal"@) == 17684434031608,
        mark("text"@) == 19296466031604,
        mark("title"@) == 17373206111605,
        mark("tokensApproxAfter"@) == 19290058231617,
        mark("tokensApproxBefore"@) == 10651606231618,
        mark("toolCall"@) == 15574034231608,
        mark("toolCallId"@) == 17358002231610,
        mark("toolName"@) == 15582806231608,
        mark("ttlPending"@) == 16088414331610,
        mark("type"@) == 18010006431604,
        mark("unbounded"@) == 16094002211709,
        mark("unqueued"@) == 18801202211708,
        mark("update"@) == 18638006251706,
        mark("updatedAt"@) == 16093266251709,
        mark("version"@) == 16892442031807,
        mark("session/attach"@) == 18598018031514,
        mark("session/detach"@) == 16198018031514,
        mark("session/new"@) == 7609278031511,
        mark("session/load"@) == 17368402031512,
        mark("session/list"@) == 17368466031512,
        mark("session/prompt"@) == 18278066031514,
        mark("session/update"@) == 17958006031514,
        mark("session/cancel"@) == 15558034031514,
        mark("amux/steer_active_turn"@) == 16878042189722,
        mark("amux/queue_prompt"@) == 18014066189717,
        mark("amux/unqueue_prompt"@) == 15281266189719,
        mark("$/cancel_request"@) == 16236464943616,
        mark("amux/cancel_active_turn"@) == 16876442189723,
        mark("session/request_permission"@) == 16252442031526,
        mark("amux/turn_started"@) == 18648402189717,
        mark("amux/turn_complete"@) == 17516406189718,
{
    lemma_names_0();
    lemma_names_1();
    lemma_names_2();
    lemma_names_3();
    lemma_names_4();
    lemma_names_5();
    lemma_names_6();
    lemma_names_7();
    lemma_names_8();
    lemma_names_9();
    lemma_names_10();
    lemma_names_11();
    lemma_names_12();
    lemma_names_13();
    lemma_names_14();
    lemma_names_15();
    lemma_names_16();
}

} // verus!
